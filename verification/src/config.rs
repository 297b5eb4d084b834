//! User configuration: layout offsets, which list and image to show,
//! and the statistics time range. Reading the file is I/O and lives
//! outside the library; the validation and fallback rules live here.

use vstd::prelude::*;
use vstd::string::StringExecFns;

verus! {

/// What a displayed item is: an artist or a track.
#[derive(Debug, Clone, Copy, PartialEq, Eq, Structural)]
pub enum ItemType {
    Artist,
    Track,
}

/// The statistics window the provider is asked for.
#[derive(Debug, Clone, Copy, PartialEq, Eq, Structural)]
pub enum TimeRange {
    Short,
    Medium,
    Long,
}

/// The query value the provider expects for a time range.
pub open spec fn spec_time_range_value(tr: TimeRange) -> Seq<char> {
    match tr {
        TimeRange::Short => "short_term"@,
        TimeRange::Medium => "medium_term"@,
        TimeRange::Long => "long_term"@,
    }
}

/// The human description of a time range.
pub open spec fn spec_time_range_message(tr: TimeRange) -> Seq<char> {
    match tr {
        TimeRange::Short => "4 weeks"@,
        TimeRange::Medium => "6 months"@,
        TimeRange::Long => "12 months"@,
    }
}

impl TimeRange {
    /// The value sent in the `time_range` query parameter.
    pub fn query_value(&self) -> (r: String)
        ensures
            r@ == spec_time_range_value(*self),
    {
        match self {
            TimeRange::Short => String::from_str("short_term"),
            TimeRange::Medium => String::from_str("medium_term"),
            TimeRange::Long => String::from_str("long_term"),
        }
    }

    /// The wording shown to the user for this window.
    pub fn message(&self) -> (r: String)
        ensures
            r@ == spec_time_range_message(*self),
    {
        match self {
            TimeRange::Short => String::from_str("4 weeks"),
            TimeRange::Medium => String::from_str("6 months"),
            TimeRange::Long => String::from_str("12 months"),
        }
    }
}

/// The tool's configuration.
#[derive(Debug, Clone, Copy, PartialEq, Eq, Structural)]
pub struct Config {
    pub offset_x: u16,
    pub offset_y: u16,
    pub gap: u16,
    pub image_view: ItemType,
    pub image_width: u16,
    pub list_view: ItemType,
    pub list_count: u16,
    pub time_range: TimeRange,
}

/// The built-in configuration.
pub open spec fn spec_default_config() -> Config {
    Config {
        offset_x: 2,
        offset_y: 0,
        gap: 5,
        image_view: ItemType::Track,
        image_width: 30,
        list_view: ItemType::Artist,
        list_count: 10,
        time_range: TimeRange::Medium,
    }
}

/// The bounds a loaded configuration must respect: an image between 25
/// and 40 columns wide and a list of 1 to 20 items.
pub open spec fn spec_config_valid(c: Config) -> bool {
    25 <= c.image_width <= 40 && 1 <= c.list_count <= 20
}

impl Default for Config {
    /// The built-in configuration.
    fn default() -> (r: Config)
        ensures
            r == spec_default_config(),
    {
        Config {
            offset_x: 2,
            offset_y: 0,
            gap: 5,
            image_view: ItemType::Track,
            image_width: 30,
            list_view: ItemType::Artist,
            list_count: 10,
            time_range: TimeRange::Medium,
        }
    }
}

impl Config {
    /// Whether this configuration respects the documented bounds.
    pub fn validate(&self) -> (r: bool)
        ensures
            r == spec_config_valid(*self),
    {
        self.image_width >= 25 && self.image_width <= 40 && self.list_count >= 1
            && self.list_count <= 20
    }

    /// What loading resolves to: the configuration read from disk when
    /// it was readable and valid, the built-in one otherwise.
    pub fn resolve(loaded: Option<Config>) -> (r: Config)
        ensures
            match loaded {
                Some(c) => r == (if spec_config_valid(c) {
                    c
                } else {
                    spec_default_config()
                }),
                None => r == spec_default_config(),
            },
    {
        match loaded {
            Some(c) => if c.validate() {
                c
            } else {
                Config::default()
            },
            None => Config::default(),
        }
    }

    /// How many tracks and artists to fetch: the shown list in full, and
    /// one extra item of the other kind when the image needs it.
    pub fn get_item_count(&self) -> (r: (u16, u16))
        ensures
            r == (match (self.image_view, self.list_view) {
                (ItemType::Track, ItemType::Artist) => (1u16, self.list_count),
                (ItemType::Track, ItemType::Track) => (self.list_count, 0u16),
                (ItemType::Artist, ItemType::Track) => (self.list_count, 1u16),
                (ItemType::Artist, ItemType::Artist) => (0u16, self.list_count),
            }),
    {
        match (self.image_view, self.list_view) {
            (ItemType::Track, ItemType::Artist) => (1, self.list_count),
            (ItemType::Track, ItemType::Track) => (self.list_count, 0),
            (ItemType::Artist, ItemType::Track) => (self.list_count, 1),
            (ItemType::Artist, ItemType::Artist) => (0, self.list_count),
        }
    }
}

} // verus!
