pub mod mb_strpos;
