pub mod load_file;
