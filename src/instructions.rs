pub mod register_provider;
