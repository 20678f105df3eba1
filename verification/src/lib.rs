pub mod counter;
pub mod message;
pub mod mouse;
pub mod observable;
pub mod observer;
pub mod point;
pub mod screen;
pub mod select_loop;
pub mod sync_barrier;
pub mod text;
pub mod window;
