//! Scheduling of pairwise network experiments over a set of shared machines.
pub mod command;
pub mod iface;
pub mod laws;
pub mod matrix;
pub mod model;
pub mod node;
pub mod phase;
pub mod plan;
pub mod pool;
pub mod registry;
pub mod scheduler;
pub mod setup;
pub mod single;
pub mod text;
pub mod tracker;

pub use command::pkill;
pub use iface::iface_name;
pub use node::Node;
pub use plan::{
    bundler_exp_iperf, cleanup_netns, get_file, nobundler_exp_control, nobundler_exp_iperf, reset,
    setup_netns,
};
pub use setup::{get_home, get_iface_name, get_tools, install_basic_packages};
