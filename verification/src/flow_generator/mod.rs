pub mod protocol_logs;
