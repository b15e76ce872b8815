pub mod throwable_methods;
