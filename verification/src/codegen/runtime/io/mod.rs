pub mod stream_context_get_ssl_peer_name;
pub mod stream_filter;
