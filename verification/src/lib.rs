//! A small terminal user interface toolkit: coordinates and sizes, a layout
//! engine, focus lists, tabs and a few widgets that describe their output as
//! terminal commands; plus the AKAI sampler disk layout and the HFE floppy
//! image header format and the Electribe 2 pattern list used by the sampler
//! tools built on it.

pub mod units;
pub mod term;
pub mod text;
pub mod event;
pub mod layout;
pub mod flow;
pub mod focus;
pub mod focus_list;
pub mod handle;
pub mod tabs;
pub mod s2k;
pub mod hfe;
pub mod triton;
pub mod electribe;
pub mod scroll;
pub mod stack;
pub mod widgets;
