pub mod new_by_name;
