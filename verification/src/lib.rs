pub mod afc;
pub mod apps;
pub mod archive;
pub mod commitment;
pub mod dates;
pub mod devices;
pub mod digest;
pub mod established;
pub mod faults;
pub mod github;
pub mod install;
pub mod ipa;
pub mod jobs;
pub mod network;
pub mod number;
pub mod pairing;
pub mod pairing_store;
pub mod probe;
pub mod record;
pub mod reply;
pub mod requests;
pub mod sealing;
pub mod session;
pub mod signing;
pub mod sorting;
pub mod sources;
pub mod stages;
pub mod staging;
pub mod store;
pub mod text;
pub mod update;
pub mod version;
