mod user_data_spec;

pub use user_data_spec::UserDataStreamSpec;
