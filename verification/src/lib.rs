pub mod appearance;
pub mod calendar;
pub mod color;
pub mod draw;
pub mod effects;
pub mod gauges;
pub mod geometry;
pub mod led;
pub mod measure;
pub mod menu;
pub mod models;
pub mod polling;
pub mod readout;
pub mod render;
pub mod settings;
pub mod startup;
pub mod state;
pub mod strings;
pub mod studio;
pub mod studio_view;
pub mod text;
pub mod timing;
pub mod tray;
pub mod updates;
pub mod widget;
pub mod window;
