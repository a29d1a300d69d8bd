//! Settings of the tray application.

use vstd::prelude::*;

verus! {

/// Which simulator to capture telemetry from.
#[derive(Debug, Clone, Copy, PartialEq, Eq, Structural)]
pub enum SimType {
    /// Assetto Corsa, known as "ac" in the settings file.
    AssettoCorsaSS,
    /// Assetto Corsa Competizione, known as "acc".
    AssettoCorsa,
    /// Replay of recorded data, known as "demo".
    Demo,
}

impl SimType {
    /// The name shown to the user.
    pub open spec fn shown(self) -> Seq<char> {
        match self {
            SimType::AssettoCorsaSS => "Assetto Corsa"@,
            SimType::AssettoCorsa => "ACC"@,
            SimType::Demo => "Demo / Replay"@,
        }
    }

    /// The rate that the simulator is captured at, in Hz.
    pub open spec fn rate_hz(self) -> u32 {
        match self {
            SimType::AssettoCorsaSS => 60,
            SimType::AssettoCorsa => 10,
            SimType::Demo => 60,
        }
    }

    /// The name shown to the user.
    pub fn label(&self) -> (r: &'static str)
        ensures
            r@ == self.shown(),
    {
        match self {
            SimType::AssettoCorsaSS => "Assetto Corsa",
            SimType::AssettoCorsa => "ACC",
            SimType::Demo => "Demo / Replay",
        }
    }

    /// All simulators, in the order they are offered in.
    pub fn all() -> (r: &'static [SimType])
        ensures
            r@ == seq![SimType::AssettoCorsaSS, SimType::AssettoCorsa, SimType::Demo],
    {
        &[SimType::AssettoCorsaSS, SimType::AssettoCorsa, SimType::Demo]
    }
}

/// Every simulator is offered exactly once.
pub proof fn every_simulator_is_offered_once(sim: SimType)
    ensures
        ({
            let all = seq![SimType::AssettoCorsaSS, SimType::AssettoCorsa, SimType::Demo];
            &&& all.contains(sim)
            &&& all.no_duplicates()
        }),
{
    let all = seq![SimType::AssettoCorsaSS, SimType::AssettoCorsa, SimType::Demo];
    assert(all[0] == SimType::AssettoCorsaSS);
    assert(all[1] == SimType::AssettoCorsa);
    assert(all[2] == SimType::Demo);
}

/// No two simulators are shown under one name.
pub proof fn labels_are_distinct(a: SimType, b: SimType)
    requires
        a.shown() == b.shown(),
    ensures
        a == b,
{
    reveal_strlit("Assetto Corsa");
    reveal_strlit("ACC");
    reveal_strlit("Demo / Replay");
    assert("Assetto Corsa"@.len() == 13 && "ACC"@.len() == 3 && "Demo / Replay"@.len() == 13);
    assert("Assetto Corsa"@[0] == 'A' && "Demo / Replay"@[0] == 'D');
}

/// Settings of the tray application.
#[derive(Debug, Clone, PartialEq, Eq)]
pub struct AppConfig {
    /// Which simulator to capture from.
    pub sim_type: SimType,
    /// Gateway endpoint URL.
    pub grpc_endpoint: String,
    /// User name.
    pub username: String,
    /// Password.
    pub password: String,
    /// Connection password of Assetto Corsa Competizione, from its broadcasting.json.
    pub acc_connection_password: String,
    /// Update interval of Assetto Corsa Competizione, in ms.
    pub acc_update_interval_ms: u32,
    /// Batch flush interval, in ms.
    pub batch_interval_ms: u64,
}

/// The update interval of Assetto Corsa Competizione unless configured otherwise.
pub fn default_acc_update_interval() -> (r: u32)
    ensures
        r == 100,
{
    100
}

/// The batch flush interval unless configured otherwise.
pub fn default_batch_interval_ms() -> (r: u64)
    ensures
        r == 100,
{
    100
}

/// Whether these are the settings of an application that has none saved.
pub open spec fn is_default_config(config: AppConfig) -> bool {
    &&& config.sim_type == SimType::AssettoCorsaSS
    &&& config.grpc_endpoint@ == "http://localhost:50051"@
    &&& config.username@ == Seq::<char>::empty()
    &&& config.password@ == Seq::<char>::empty()
    &&& config.acc_connection_password@ == Seq::<char>::empty()
    &&& config.acc_update_interval_ms == 100
    &&& config.batch_interval_ms == 100
}

impl Default for AppConfig {
    fn default() -> (r: AppConfig)
        ensures
            is_default_config(r),
    {
        AppConfig {
            sim_type: SimType::AssettoCorsaSS,
            grpc_endpoint: "http://localhost:50051".to_owned(),
            username: String::new(),
            password: String::new(),
            acc_connection_password: String::new(),
            acc_update_interval_ms: default_acc_update_interval(),
            batch_interval_ms: default_batch_interval_ms(),
        }
    }
}

/// What came of reading the settings file.
pub enum SavedConfig {
    /// The file holds these settings.
    Parsed(AppConfig),
    /// The file does not hold settings.
    Malformed,
    /// The file could not be read.
    Missing,
}

/// The platforms that keep settings in different places.
#[derive(Debug, Clone, Copy, PartialEq, Eq, Structural)]
pub enum Platform {
    Windows,
    MacOs,
    /// Linux and everything like it.
    Linux,
}

/// The path of the settings file from the user's settings directory on, and from the working
/// directory on where there is no such directory.
pub open spec fn settings_path(platform: Platform, based: bool) -> Seq<Seq<char>> {
    if !based {
        seq!["ps-tray-app-config.toml"@]
    } else {
        match platform {
            Platform::Windows => seq!["PurpleSector"@, "ps-tray-app"@, "config.toml"@],
            Platform::MacOs => seq!["com.purplesector.ps-tray-app"@, "config.toml"@],
            Platform::Linux => seq!["purplesector"@, "ps-tray-app"@, "config.toml"@],
        }
    }
}

impl AppConfig {
    /// Where the settings file is: the user's settings directory, as handed in, and the path
    /// from there on.
    pub fn config_path<D>(config_dir: Option<D>, platform: Platform) -> (r: (
        Option<D>,
        Vec<&'static str>,
    ))
        ensures
            r.0 == config_dir,
            r.1@.len() == settings_path(platform, config_dir is Some).len(),
            forall|i: int|
                0 <= i < r.1@.len() ==> (#[trigger] r.1@[i])@ == settings_path(
                    platform,
                    config_dir is Some,
                )[i],
    {
        let mut path: Vec<&'static str> = Vec::new();
        match (&config_dir, platform) {
            (None, _) => {
                path.push("ps-tray-app-config.toml");
            },
            (Some(_), Platform::Windows) => {
                path.push("PurpleSector");
                path.push("ps-tray-app");
                path.push("config.toml");
            },
            (Some(_), Platform::MacOs) => {
                path.push("com.purplesector.ps-tray-app");
                path.push("config.toml");
            },
            (Some(_), Platform::Linux) => {
                path.push("purplesector");
                path.push("ps-tray-app");
                path.push("config.toml");
            },
        }
        (config_dir, path)
    }

    /// The settings to run with: the saved ones, or the default ones where none can be
    /// read.
    pub fn load(saved: SavedConfig) -> (r: AppConfig)
        ensures
            match saved {
                SavedConfig::Parsed(config) => r == config,
                _ => is_default_config(r),
            },
    {
        match saved {
            SavedConfig::Parsed(config) => config,
            SavedConfig::Malformed => AppConfig::default(),
            SavedConfig::Missing => AppConfig::default(),
        }
    }
}

} // verus!
