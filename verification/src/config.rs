//! The resolved configuration the core works from: global bar geometry and,
//! per region, the ordered segment declarations with their colormap tables.
//! Reading a configuration file and producing these values is the
//! collaborator's job; the defaults here are the built-in theme.

use vstd::prelude::*;
use vstd::pervasive::unreached;
use vstd::string::*;

use crate::color::Color;
use crate::colormap::ColorMap;
use crate::segment::BatteryColors;
use crate::segment::MemoryConfig;
use crate::segment::TempConfig;

verus! {

/// Geometry and theme shared by the whole bar.
#[derive(Clone, Debug)]
pub struct GlobalConfig {
    pub height: u32,
    pub background: Color,
    pub font_size: u32,
    pub spacing: u32,
}

/// Configuration of a clock segment: a strftime format in one color.
#[derive(Clone, Debug)]
pub struct ClockConfig {
    pub format: String,
    pub color: Color,
}

/// Configuration of a cpu segment: gauge geometry and a colormap over
/// permille load.
#[derive(Clone, Debug)]
pub struct CpuConfig {
    pub min_max_width: u32,
    pub avg_width: u32,
    pub colormap: ColorMap,
    pub spacing: u32,
    pub height: u32,
}

/// Configuration of a network segment: a colormap over bytes per second.
#[derive(Clone, Debug)]
pub struct NetworkConfig {
    pub colormap: ColorMap,
    pub spacing: u32,
}

/// Configuration of a battery segment: gauge geometry, a colormap over
/// permille charge, and the state glyph colors.
#[derive(Clone, Debug)]
pub struct BatteryConfig {
    pub width: u32,
    pub height: u32,
    pub spacing: u32,
    pub colormap: ColorMap,
    pub colors: BatteryColors,
}

/// One segment declaration, as a closed set of variants.
#[derive(Clone, Debug)]
pub enum ConsumerConfig {
    ClockConfig(ClockConfig),
    CpuConfig(CpuConfig),
    MemoryConfig(MemoryConfig),
    NetworkConfig(NetworkConfig),
    TempConfig(TempConfig),
    BatteryConfig(BatteryConfig),
}

/// Whether a declaration's colormap (where it has one) is a well-formed
/// table, so a segment built from it can interpolate.
pub open spec fn config_wf(c: ConsumerConfig) -> bool {
    match c {
        ConsumerConfig::ClockConfig(_) => true,
        ConsumerConfig::CpuConfig(cc) => cc.colormap.wf(),
        ConsumerConfig::MemoryConfig(mc) => mc.colormap.wf(),
        ConsumerConfig::NetworkConfig(nc) => nc.colormap.wf(),
        ConsumerConfig::TempConfig(tc) => tc.colormap.wf(),
        ConsumerConfig::BatteryConfig(bc) => bc.colormap.wf(),
    }
}

/// The whole bar: global theme and the three regions' declarations.
#[derive(Clone, Debug)]
pub struct RustybarConfig {
    pub global: GlobalConfig,
    pub left: Vec<ConsumerConfig>,
    pub center: Vec<ConsumerConfig>,
    pub right: Vec<ConsumerConfig>,
}

fn colormap_of(points: Vec<(i64, Color)>) -> (cm: ColorMap)
    requires
        points@.len() >= 2,
        forall|i: int| 0 <= i < points@.len() - 1 ==> (#[trigger] points@[i]).0 < points@[i + 1].0,
    ensures
        cm.wf(),
{
    match ColorMap::from_points(&points) {
        Ok(cm) => cm,
        Err(_) => unreached(),
    }
}

impl Default for RustybarConfig {
    /// The built-in theme: two clocks on the left; temperature, cpu and
    /// memory in the center; network, a clock, the battery and another clock
    /// on the right. All colormap tables are well-formed, so every segment
    /// built from this configuration can interpolate.
    fn default() -> (r: Self)
        ensures
            r.global.height == 24,
            r.global.background == (Color { r: 0, g: 0, b: 0 }),
            r.global.font_size == 16,
            r.global.spacing == 12,
            r.left@.len() == 2,
            r.center@.len() == 3,
            r.right@.len() == 4,
            forall|i: int| 0 <= i < r.left@.len() ==> config_wf(#[trigger] r.left@[i]),
            forall|i: int| 0 <= i < r.center@.len() ==> config_wf(#[trigger] r.center@[i]),
            forall|i: int| 0 <= i < r.right@.len() ==> config_wf(#[trigger] r.right@[i]),
            r.left@[0] is ClockConfig,
            r.left@[1] is ClockConfig,
            r.center@[0] is TempConfig,
            r.center@[1] is CpuConfig,
            r.center@[2] is MemoryConfig,
            r.right@[0] is NetworkConfig,
            r.right@[1] is ClockConfig,
            r.right@[2] is BatteryConfig,
            r.right@[3] is ClockConfig,
    {
        let bg1 = Color::new(0x29, 0x2b, 0x2e);
        let bg2 = Color::new(0x1f, 0x20, 0x22);
        let aqua = Color::new(0x2d, 0x95, 0x74);
        let blue = Color::new(0x4f, 0x97, 0xd7);
        let magenta = Color::new(0xa3, 0x1d, 0xb1);
        let red = Color::new(0xf2, 0x24, 0x1f);

        let date_clock = ClockConfig { format: String::from_str("%a %Y-%m-%d"), color: blue };
        let time_clock = ClockConfig { format: String::from_str("%H:%M:%S"), color: aqua };

        let temp_points: Vec<(i64, Color)> = vec![
            (40000, aqua),
            (60000, blue),
            (80000, magenta),
            (100000, red),
        ];
        let cpu_points: Vec<(i64, Color)> = vec![
            (0, bg2),
            (200, bg1),
            (400, aqua),
            (800, magenta),
            (1000, red),
        ];
        let memory_points: Vec<(i64, Color)> = vec![
            (1000000000, red),
            (3000000000, blue),
            (8000000000, aqua),
        ];
        let network_points: Vec<(i64, Color)> = vec![
            (0, bg2),
            (1000, bg1),
            (10000, aqua),
            (100000, blue),
            (1000000, magenta),
            (50000000, red),
        ];
        let battery_points: Vec<(i64, Color)> = vec![
            (0, red),
            (300, magenta),
            (700, blue),
            (1000, aqua),
        ];

        let mut left: Vec<ConsumerConfig> = Vec::new();
        left.push(ConsumerConfig::ClockConfig(date_clock));
        left.push(
            ConsumerConfig::ClockConfig(
                ClockConfig { format: String::from_str("%H:%M:%S"), color: aqua },
            ),
        );

        let mut center: Vec<ConsumerConfig> = Vec::new();
        center.push(ConsumerConfig::TempConfig(TempConfig { colormap: colormap_of(temp_points) }));
        center.push(
            ConsumerConfig::CpuConfig(
                CpuConfig {
                    min_max_width: 40,
                    avg_width: 80,
                    spacing: 10,
                    height: 18,
                    colormap: colormap_of(cpu_points),
                },
            ),
        );
        center.push(
            ConsumerConfig::MemoryConfig(MemoryConfig { colormap: colormap_of(memory_points) }),
        );

        let mut right: Vec<ConsumerConfig> = Vec::new();
        right.push(
            ConsumerConfig::NetworkConfig(
                NetworkConfig { colormap: colormap_of(network_points), spacing: 12 },
            ),
        );
        right.push(
            ConsumerConfig::ClockConfig(
                ClockConfig { format: String::from_str("%a %Y-%m-%d"), color: blue },
            ),
        );
        right.push(
            ConsumerConfig::BatteryConfig(
                BatteryConfig {
                    width: 40,
                    height: 18,
                    spacing: 10,
                    colors: BatteryColors { charge: aqua, discharge: red, unknown: magenta },
                    colormap: colormap_of(battery_points),
                },
            ),
        );
        right.push(ConsumerConfig::ClockConfig(time_clock));

        RustybarConfig {
            global: GlobalConfig {
                height: 24,
                background: Color::new(0, 0, 0),
                font_size: 16,
                spacing: 12,
            },
            left,
            center,
            right,
        }
    }
}

} // verus!
