use crate::text::{ends_with, text_ends_with};
use vstd::prelude::*;

verus! {

/// One device of the configured hierarchy: its identity and the devices
/// directly below it, in configuration order.
pub struct DeviceConfig {
    pub device_id: String,
    pub children: Vec<DeviceConfig>,
}

/// The mathematical model of a device tree.
pub struct DeviceTree {
    pub id: Seq<char>,
    pub children: Seq<DeviceTree>,
}

impl View for DeviceConfig {
    type V = DeviceTree;

    open spec fn view(&self) -> DeviceTree
        decreases self, 1nat,
    {
        DeviceTree { id: self.device_id@, children: forest_view(self.children@) }
    }
}

/// The models of a sequence of devices, in the same order.
pub open spec fn forest_view(devices: Seq<DeviceConfig>) -> Seq<DeviceTree>
    decreases devices, 0nat,
{
    if devices.len() == 0 {
        Seq::empty()
    } else {
        forest_view(devices.drop_last()).push(devices.last()@)
    }
}

/// `forest_view` keeps the length and maps each device to its model.
pub proof fn lemma_forest_view(devices: Seq<DeviceConfig>)
    ensures
        forest_view(devices).len() == devices.len(),
        forall|i: int| 0 <= i < devices.len() ==> #[trigger] forest_view(devices)[i] == devices[i]@,
    decreases devices.len(),
{
    if devices.len() > 0 {
        lemma_forest_view(devices.drop_last());
        assert(forest_view(devices) == forest_view(devices.drop_last()).push(devices.last()@));
    }
}

impl DeviceConfig {
    /// The model of a device holds its id and, in order, the models of its
    /// children.
    pub proof fn lemma_view(self)
        ensures
            self@.id == self.device_id@,
            self@.children.len() == self.children@.len(),
            forall|i: int|
                0 <= i < self.children@.len() ==> #[trigger] self@.children[i]
                    == self.children@[i]@,
    {
        lemma_forest_view(self.children@);
    }
}

/// Connection parameters of the device registry.
pub struct IotHubConfig {
    pub iot_hub_name: String,
}

/// The whole configuration: the registry and the device tree to mirror in it.
pub struct Config {
    pub iothub: IotHubConfig,
    pub root_device: DeviceConfig,
}

/// The model of a [`Config`]: the name of the registry and the device tree.
pub struct ConfigView {
    pub hub: Seq<char>,
    pub root: DeviceTree,
}

impl View for Config {
    type V = ConfigView;

    open spec fn view(&self) -> ConfigView {
        ConfigView { hub: self.iothub.iot_hub_name@, root: self.root_device@ }
    }
}

/// The notation a configuration file is written in.
#[derive(Clone, Copy, Debug, PartialEq, Eq, Structural)]
pub enum ConfigFormat {
    Toml,
    Yaml,
}

/// Which file holds the configuration, and how to read it.
pub struct ConfigSource {
    pub path: String,
    pub format: ConfigFormat,
}

/// The configuration file that is read when none is named.
pub open spec fn default_config_path() -> Seq<char> {
    "./templates/test1.yaml"@
}

/// A file whose name ends in `.toml` is read as TOML, any other as YAML.
pub open spec fn format_of(path: Seq<char>) -> ConfigFormat {
    if ends_with(path, ".toml"@) {
        ConfigFormat::Toml
    } else {
        ConfigFormat::Yaml
    }
}

/// The path that is read: the named one, or the default.
pub open spec fn chosen_path(file_path: Option<String>) -> Seq<char> {
    match file_path {
        Some(path) => path@,
        None => default_config_path(),
    }
}

/// Settles which configuration file is read and in which notation.
pub fn config_source(file_path: Option<String>) -> (source: ConfigSource)
    ensures
        source.path@ == chosen_path(file_path),
        source.format == format_of(source.path@),
{
    let path = match file_path {
        Some(path) => path,
        None => "./templates/test1.yaml".to_owned(),
    };
    let format = if text_ends_with(path.as_str(), ".toml") {
        ConfigFormat::Toml
    } else {
        ConfigFormat::Yaml
    };
    ConfigSource { path, format }
}

} // verus!
