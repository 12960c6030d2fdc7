//! How the window of an application is to be made.

use vstd::prelude::*;
use crate::vector::Vec2Bits;

verus! {

/// The settings of a window. Sizes are in logical pixels, as binary32
/// patterns.
#[derive(Debug, Clone)]
pub struct WindowSettings {
    pub title: String,
    pub min_size: Option<Vec2Bits>,
    pub max_size: Option<Vec2Bits>,
    pub initial_size: Vec2Bits,
    pub resizable: bool,
    pub transparent: bool,
    pub decorated: bool,
}

impl WindowSettings {
    /// A resizable, opaque, decorated window of the given title and size,
    /// without bounds on its size.
    pub fn new(title: String, width: u32, height: u32) -> (s: Self)
        ensures
            s == (WindowSettings {
                title,
                min_size: None,
                max_size: None,
                initial_size: Vec2Bits { x: width, y: height },
                resizable: true,
                transparent: false,
                decorated: true,
            }),
    {
        WindowSettings {
            title,
            initial_size: Vec2Bits::new(width, height),
            min_size: None,
            max_size: None,
            resizable: true,
            transparent: false,
            decorated: true,
        }
    }

    /// The same settings with a smallest size.
    pub fn with_min_size(self, width: u32, height: u32) -> (s: Self)
        ensures
            s == (WindowSettings { min_size: Some(Vec2Bits { x: width, y: height }), ..self }),
    {
        WindowSettings { min_size: Some(Vec2Bits::new(width, height)), ..self }
    }

    /// The same settings with a largest size.
    pub fn with_max_size(self, width: u32, height: u32) -> (s: Self)
        ensures
            s == (WindowSettings { max_size: Some(Vec2Bits { x: width, y: height }), ..self }),
    {
        WindowSettings { max_size: Some(Vec2Bits::new(width, height)), ..self }
    }

    /// The same settings, resizable or not.
    pub fn resizable(self, resizable: bool) -> (s: Self)
        ensures
            s == (WindowSettings { resizable, ..self }),
    {
        WindowSettings { resizable, ..self }
    }

    /// The same settings, transparent or not.
    pub fn transparent(self, transparent: bool) -> (s: Self)
        ensures
            s == (WindowSettings { transparent, ..self }),
    {
        WindowSettings { transparent, ..self }
    }

    /// The same settings without decorations.
    pub fn no_decoration(self) -> (s: Self)
        ensures
            s == (WindowSettings { decorated: false, ..self }),
    {
        WindowSettings { decorated: false, ..self }
    }
}

} // verus!
