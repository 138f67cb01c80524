pub mod nest2;
