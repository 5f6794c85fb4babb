pub mod m20220702_125358_response_type;
pub mod m20220720_125359_client;
pub mod m20220720_125360_requests;
pub mod m20220801_214142_code;
pub mod migrator;
pub mod schema;
