pub mod ob_buffer;
