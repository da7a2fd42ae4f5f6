//! A remote-controlled compute worker: wire framing, route dispatch and
//! reconnect decisions for the coordinator link, the channel pool that
//! decouples producers from the single socket writer, argument planning for
//! the sandboxed program engine, and the shape rules and kernels of the
//! matrix backend.
pub mod channel_pool;
pub mod engine;
pub mod framing;
pub mod gpu;
pub mod protocol;
pub mod routes;
pub mod ws_client;
