use vstd::prelude::*;

pub mod actions;
pub mod assistant;
pub mod audio;
pub mod battery;
pub mod board;
pub mod buttons;
pub mod dispatch;
pub mod drivers;
pub mod home;
pub mod home_grid;
pub mod intents;
pub mod panel;
pub mod logprofile;
pub mod media;
pub mod music_screen;
pub mod internet_radio_screen;
pub mod model;
pub mod music;
pub mod open_meteo;
pub mod pages;
pub mod providers;
pub mod radio;
pub mod render;
pub mod runtime;
pub mod screen_text;
pub mod screens;
pub mod settings;
pub mod shapes;
pub mod state;
pub mod text;
pub mod time;
pub mod touch;
pub mod touch_guard;
pub mod weather;
pub mod weather_cache;
pub mod widgets;
pub mod wifi;

verus! {
} // verus!
