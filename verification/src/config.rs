//! The widget's settings and how a stored settings file is taken up.

use vstd::prelude::*;

verus! {

/// How spending is followed: by keeping a daily ledger of balance drops,
/// or by showing the balance as it comes.
#[derive(Clone, Copy, Debug, PartialEq, Eq, Structural)]
pub enum UsageMode {
    Ledger,
    Realtime,
}

/// The widget's settings.
///
/// `widget_size_bits` holds the bit pattern of the widget's `f32` scale
/// factor; the library only carries it.
#[derive(Clone, Debug)]
pub struct Config {
    pub api_key: String,
    pub widget_size_bits: u32,
    pub usage_mode: UsageMode,
    pub auto_refresh_seconds: u64,
    pub show_bubble: bool,
}

/// The bit pattern of the scale factor `1.0` as an `f32`.
pub const UNIT_SCALE_BITS: u32 = 0x3f80_0000;

/// The default settings: no key, unit scale, ledger mode, a refresh every
/// minute and speech bubbles shown.
pub open spec fn is_default_config(c: Config) -> bool {
    &&& c.api_key@ == Seq::<char>::empty()
    &&& c.widget_size_bits == UNIT_SCALE_BITS
    &&& c.usage_mode == UsageMode::Ledger
    &&& c.auto_refresh_seconds == 60
    &&& c.show_bubble
}

impl Default for Config {
    fn default() -> (c: Self)
        ensures
            is_default_config(c),
    {
        Config {
            api_key: String::new(),
            widget_size_bits: UNIT_SCALE_BITS,
            usage_mode: UsageMode::Ledger,
            auto_refresh_seconds: 60,
            show_bubble: true,
        }
    }
}

/// The settings a start-up takes, and whether the default settings are to
/// be written out because no settings file existed.
pub struct ConfigLoad {
    pub config: Config,
    pub write_default: bool,
}

impl Config {
    /// Takes up the settings at start-up. `file_exists` tells whether the
    /// settings file exists; `stored` is what reading and parsing it gave,
    /// if both succeeded. An existing file that cannot be used gives the
    /// default settings, which are then not written; a missing file gives
    /// the default settings, which are to be written.
    pub fn load(file_exists: bool, stored: Option<Config>) -> (r: ConfigLoad)
        ensures
            r.write_default == !file_exists,
            (file_exists && stored is Some) ==> r.config == stored->0,
            (!file_exists || stored is None) ==> is_default_config(r.config),
    {
        if file_exists {
            match stored {
                Some(c) => ConfigLoad { config: c, write_default: false },
                None => ConfigLoad { config: Config::default(), write_default: false },
            }
        } else {
            ConfigLoad { config: Config::default(), write_default: true }
        }
    }
}

} // verus!
