use vstd::prelude::*;
use vstd::string::*;

verus! {

/// Settings used to create a window.
#[derive(Debug, Clone)]
pub struct WindowConfig {
    pub title: String,
    pub width: u32,
    pub height: u32,
    pub position: Option<(i32, i32)>,
    pub resizable: bool,
    pub min_size: Option<(u32, u32)>,
    pub max_size: Option<(u32, u32)>,
}

/// Default inner width of a new window, in physical pixels.
pub const DEFAULT_WIDTH: u32 = 800;

/// Default inner height of a new window, in physical pixels.
pub const DEFAULT_HEIGHT: u32 = 600;

impl WindowConfig {
    /// The configuration every other field of which is its default:
    /// 800 x 600, no position, resizable, no size limits.
    pub open spec fn with_defaults(self, title: Seq<char>) -> bool {
        &&& self.title@ == title
        &&& self.width == DEFAULT_WIDTH
        &&& self.height == DEFAULT_HEIGHT
        &&& self.position is None
        &&& self.resizable
        &&& self.min_size is None
        &&& self.max_size is None
    }

    /// Every field but the title is the same in both.
    pub open spec fn same_but_title(self, other: Self) -> bool {
        &&& self.width == other.width
        &&& self.height == other.height
        &&& self.position == other.position
        &&& self.resizable == other.resizable
        &&& self.min_size == other.min_size
        &&& self.max_size == other.max_size
    }

    /// The configuration with the inner size set.
    pub open spec fn sized(self, width: u32, height: u32) -> Self {
        WindowConfig { width, height, ..self }
    }

    /// The configuration with the initial position set.
    pub open spec fn placed(self, x: i32, y: i32) -> Self {
        WindowConfig { position: Some((x, y)), ..self }
    }

    /// The configuration with resizability set.
    pub open spec fn with_resizable(self, resizable: bool) -> Self {
        WindowConfig { resizable, ..self }
    }

    /// The configuration with the minimum size set.
    pub open spec fn with_min_size(self, width: u32, height: u32) -> Self {
        WindowConfig { min_size: Some((width, height)), ..self }
    }

    /// The configuration with the maximum size set.
    pub open spec fn with_max_size(self, width: u32, height: u32) -> Self {
        WindowConfig { max_size: Some((width, height)), ..self }
    }

    pub fn new(title: &str) -> (res: Self)
        ensures
            res.with_defaults(title@),
    {
        WindowConfig {
            title: String::from_str(title),
            width: DEFAULT_WIDTH,
            height: DEFAULT_HEIGHT,
            position: None,
            resizable: true,
            min_size: None,
            max_size: None,
        }
    }

    pub fn title(self, title: &str) -> (res: Self)
        ensures
            res.title@ == title@,
            res.same_but_title(self),
    {
        let mut c = self;
        c.title = String::from_str(title);
        c
    }

    pub fn size(self, width: u32, height: u32) -> (res: Self)
        ensures
            res == self.sized(width, height),
    {
        let mut c = self;
        c.width = width;
        c.height = height;
        c
    }

    pub fn position(self, x: i32, y: i32) -> (res: Self)
        ensures
            res == self.placed(x, y),
    {
        let mut c = self;
        c.position = Some((x, y));
        c
    }

    pub fn resizable(self, resizable: bool) -> (res: Self)
        ensures
            res == self.with_resizable(resizable),
    {
        let mut c = self;
        c.resizable = resizable;
        c
    }

    pub fn min_size(self, width: u32, height: u32) -> (res: Self)
        ensures
            res == self.with_min_size(width, height),
    {
        let mut c = self;
        c.min_size = Some((width, height));
        c
    }

    pub fn max_size(self, width: u32, height: u32) -> (res: Self)
        ensures
            res == self.with_max_size(width, height),
    {
        let mut c = self;
        c.max_size = Some((width, height));
        c
    }
}

impl Default for WindowConfig {
    fn default() -> (res: Self)
        ensures
            res.with_defaults("windowed"@),
    {
        WindowConfig::new("windowed")
    }
}

/// Each builder call decides its own setting alone: a later call of the same
/// builder replaces the earlier one, and calls of different builders can
/// come in any order.
pub proof fn lemma_builders_independent(c: WindowConfig, w1: u32, h1: u32, w2: u32, h2: u32, x: i32, y: i32, r: bool)
    ensures
        c.sized(w1, h1).sized(w2, h2) == c.sized(w2, h2),
        c.placed(x, y).placed(w1 as i32, h1 as i32) == c.placed(w1 as i32, h1 as i32),
        c.with_resizable(r).with_resizable(!r) == c.with_resizable(!r),
        c.with_min_size(w1, h1).with_min_size(w2, h2) == c.with_min_size(w2, h2),
        c.with_max_size(w1, h1).with_max_size(w2, h2) == c.with_max_size(w2, h2),
        c.sized(w1, h1).placed(x, y) == c.placed(x, y).sized(w1, h1),
        c.sized(w1, h1).with_resizable(r) == c.with_resizable(r).sized(w1, h1),
        c.with_min_size(w1, h1).with_max_size(w2, h2) == c.with_max_size(w2, h2).with_min_size(w1, h1),
        c.placed(x, y).with_resizable(r) == c.with_resizable(r).placed(x, y),
{
}

} // verus!
