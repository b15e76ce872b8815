pub mod buffer_len;
