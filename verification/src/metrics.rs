//! The gauges the exporter publishes, and the samples that a sensor or a
//! light contributes to them.

use vstd::prelude::*;
use vstd::string::*;
use crate::hue_client::{Light, Sensor};

verus! {

/// A gauge fed from the sensors, in the order in which a sensor reports them.
#[derive(Debug, Clone, Copy, PartialEq, Eq, Hash, Structural)]
pub enum SensorMetric {
    ConfigOn,
    ConfigConfigured,
    ConfigSunriseoffset,
    ConfigSunsetoffset,
    ConfigReachable,
    ConfigBattery,
    ConfigLedindication,
    ConfigUsertest,
    ConfigSensitivity,
    ConfigSensitivitymax,
    ConfigTholddark,
    ConfigTholdoffset,
    StateDaylight,
    StateFlag,
    StatePresence,
    StateDark,
    StateStatus,
    StateButtonevent,
    StateTemperature,
    StateLightlevel,
}

/// A gauge fed from the lights, in the order in which a light reports them.
#[derive(Debug, Clone, Copy, PartialEq, Eq, Hash, Structural)]
pub enum LightMetric {
    StateReachable,
    StateOn,
    StateBri,
    StateHue,
    StateSat,
    StateCt,
}

/// A gauge of the exporter.
#[derive(Debug, Clone, Copy, PartialEq, Eq, Hash, Structural)]
pub enum Metric {
    Sensor(SensorMetric),
    Light(LightMetric),
}

/// The part of a sensor gauge's name after `hue_sensors_`.
pub open spec fn spec_sensor_suffix(m: SensorMetric) -> Seq<char> {
    match m {
        SensorMetric::ConfigOn => "config_on"@,
        SensorMetric::ConfigConfigured => "config_configured"@,
        SensorMetric::ConfigSunriseoffset => "config_sunriseoffset"@,
        SensorMetric::ConfigSunsetoffset => "config_sunsetoffset"@,
        SensorMetric::ConfigReachable => "config_reachable"@,
        SensorMetric::ConfigBattery => "config_battery"@,
        SensorMetric::ConfigLedindication => "config_ledindication"@,
        SensorMetric::ConfigUsertest => "config_usertest"@,
        SensorMetric::ConfigSensitivity => "config_sensitivity"@,
        SensorMetric::ConfigSensitivitymax => "config_sensitivitymax"@,
        SensorMetric::ConfigTholddark => "config_tholddark"@,
        SensorMetric::ConfigTholdoffset => "config_tholdoffset"@,
        SensorMetric::StateDaylight => "state_daylight"@,
        SensorMetric::StateFlag => "state_flag"@,
        SensorMetric::StatePresence => "state_presence"@,
        SensorMetric::StateDark => "state_dark"@,
        SensorMetric::StateStatus => "state_status"@,
        SensorMetric::StateButtonevent => "state_buttonevent"@,
        SensorMetric::StateTemperature => "state_temperature"@,
        SensorMetric::StateLightlevel => "state_lightlevel"@,
    }
}

/// The part of a light gauge's name after `hue_lights_`.
pub open spec fn spec_light_suffix(m: LightMetric) -> Seq<char> {
    match m {
        LightMetric::StateReachable => "state_reachable"@,
        LightMetric::StateOn => "state_on"@,
        LightMetric::StateBri => "state_bri"@,
        LightMetric::StateHue => "state_hue"@,
        LightMetric::StateSat => "state_sat"@,
        LightMetric::StateCt => "state_ct"@,
    }
}

/// The suffix of a gauge's name, shared by its name and its help text.
pub open spec fn spec_suffix(m: Metric) -> Seq<char> {
    match m {
        Metric::Sensor(s) => spec_sensor_suffix(s),
        Metric::Light(l) => spec_light_suffix(l),
    }
}

/// The name under which a gauge is registered.
pub open spec fn spec_metric_name(m: Metric) -> Seq<char> {
    match m {
        Metric::Sensor(_) => "hue_sensors_"@ + spec_suffix(m),
        Metric::Light(_) => "hue_lights_"@ + spec_suffix(m),
    }
}

/// The help text of a gauge.
pub open spec fn spec_metric_help(m: Metric) -> Seq<char> {
    match m {
        Metric::Sensor(_) => "Hue sensor value "@ + spec_suffix(m),
        Metric::Light(_) => "Hue light value "@ + spec_suffix(m),
    }
}

/// Whether a gauge's sample values count hundredths of the gauge's unit,
/// so that the gauge shows the value divided by 100: the temperature, which
/// the bridge reports in hundredths of a degree Celsius.
pub open spec fn spec_in_hundredths(m: Metric) -> bool {
    m == Metric::Sensor(SensorMetric::StateTemperature)
}

impl SensorMetric {
    /// The part of the gauge's name after `hue_sensors_`.
    pub fn suffix(&self) -> (s: &'static str)
        ensures
            s@ == spec_sensor_suffix(*self),
    {
        match self {
            SensorMetric::ConfigOn => "config_on",
            SensorMetric::ConfigConfigured => "config_configured",
            SensorMetric::ConfigSunriseoffset => "config_sunriseoffset",
            SensorMetric::ConfigSunsetoffset => "config_sunsetoffset",
            SensorMetric::ConfigReachable => "config_reachable",
            SensorMetric::ConfigBattery => "config_battery",
            SensorMetric::ConfigLedindication => "config_ledindication",
            SensorMetric::ConfigUsertest => "config_usertest",
            SensorMetric::ConfigSensitivity => "config_sensitivity",
            SensorMetric::ConfigSensitivitymax => "config_sensitivitymax",
            SensorMetric::ConfigTholddark => "config_tholddark",
            SensorMetric::ConfigTholdoffset => "config_tholdoffset",
            SensorMetric::StateDaylight => "state_daylight",
            SensorMetric::StateFlag => "state_flag",
            SensorMetric::StatePresence => "state_presence",
            SensorMetric::StateDark => "state_dark",
            SensorMetric::StateStatus => "state_status",
            SensorMetric::StateButtonevent => "state_buttonevent",
            SensorMetric::StateTemperature => "state_temperature",
            SensorMetric::StateLightlevel => "state_lightlevel",
        }
    }
}

impl LightMetric {
    /// The part of the gauge's name after `hue_lights_`.
    pub fn suffix(&self) -> (s: &'static str)
        ensures
            s@ == spec_light_suffix(*self),
    {
        match self {
            LightMetric::StateReachable => "state_reachable",
            LightMetric::StateOn => "state_on",
            LightMetric::StateBri => "state_bri",
            LightMetric::StateHue => "state_hue",
            LightMetric::StateSat => "state_sat",
            LightMetric::StateCt => "state_ct",
        }
    }
}

impl Metric {
    /// The suffix shared by the gauge's name and help text.
    pub fn suffix(&self) -> (s: &'static str)
        ensures
            s@ == spec_suffix(*self),
    {
        match self {
            Metric::Sensor(m) => m.suffix(),
            Metric::Light(m) => m.suffix(),
        }
    }

    /// The name under which the gauge is registered.
    pub fn name(&self) -> (name: String)
        ensures
            name@ == spec_metric_name(*self),
    {
        let mut name = match self {
            Metric::Sensor(_) => String::from_str("hue_sensors_"),
            Metric::Light(_) => String::from_str("hue_lights_"),
        };
        name.append(self.suffix());
        name
    }

    /// The help text of the gauge.
    pub fn help(&self) -> (help: String)
        ensures
            help@ == spec_metric_help(*self),
    {
        let mut help = match self {
            Metric::Sensor(_) => String::from_str("Hue sensor value "),
            Metric::Light(_) => String::from_str("Hue light value "),
        };
        help.append(self.suffix());
        help
    }

    /// Whether the gauge shows its samples' values divided by 100.
    pub fn in_hundredths(&self) -> (b: bool)
        ensures
            b == spec_in_hundredths(*self),
    {
        match self {
            Metric::Sensor(SensorMetric::StateTemperature) => true,
            _ => false,
        }
    }
}

/// The names of the two labels of every gauge: the device's name and type.
pub fn label_names() -> (names: [&'static str; 2])
    ensures
        names@[0]@ == "name"@,
        names@[1]@ == "device_type"@,
{
    ["name", "device_type"]
}

/// The value a gauge shows for a flag: 1 when it is set, else 0.
pub open spec fn flag_value(b: bool) -> i64 {
    if b {
        1
    } else {
        0
    }
}

/// The value a gauge shows for an optional flag, when it is present.
pub open spec fn opt_flag_value(b: Option<bool>) -> Option<i64> {
    match b {
        Some(b) => Some(flag_value(b)),
        None => None,
    }
}

/// What a sensor reports to a gauge: nothing (`None`) when the bridge left
/// the field out.
pub open spec fn spec_sensor_value(s: Sensor, m: SensorMetric) -> Option<i64> {
    match m {
        SensorMetric::ConfigOn => Some(flag_value(s.config.on)),
        SensorMetric::ConfigConfigured => opt_flag_value(s.config.configured),
        SensorMetric::ConfigSunriseoffset => s.config.sunriseoffset,
        SensorMetric::ConfigSunsetoffset => s.config.sunsetoffset,
        SensorMetric::ConfigReachable => opt_flag_value(s.config.reachable),
        SensorMetric::ConfigBattery => s.config.battery,
        SensorMetric::ConfigLedindication => opt_flag_value(s.config.ledindication),
        SensorMetric::ConfigUsertest => opt_flag_value(s.config.usertest),
        SensorMetric::ConfigSensitivity => s.config.sensitivity,
        SensorMetric::ConfigSensitivitymax => s.config.sensitivitymax,
        SensorMetric::ConfigTholddark => s.config.tholddark,
        SensorMetric::ConfigTholdoffset => s.config.tholdoffset,
        SensorMetric::StateDaylight => opt_flag_value(s.state.daylight),
        SensorMetric::StateFlag => opt_flag_value(s.state.flag),
        SensorMetric::StatePresence => opt_flag_value(s.state.presence),
        SensorMetric::StateDark => opt_flag_value(s.state.dark),
        SensorMetric::StateStatus => s.state.status,
        SensorMetric::StateButtonevent => s.state.buttonevent,
        SensorMetric::StateTemperature => s.state.temperature,
        SensorMetric::StateLightlevel => s.state.lightlevel,
    }
}

/// What a light reports to a gauge: nothing (`None`) when the bridge left
/// the field out.
pub open spec fn spec_light_value(l: Light, m: LightMetric) -> Option<i64> {
    match m {
        LightMetric::StateReachable => Some(flag_value(l.state.reachable)),
        LightMetric::StateOn => Some(flag_value(l.state.on)),
        LightMetric::StateBri => l.state.bri,
        LightMetric::StateHue => l.state.hue,
        LightMetric::StateSat => l.state.sat,
        LightMetric::StateCt => l.state.ct,
    }
}

/// Whether a sensor gauge is fed from a flag of the sensor.
pub open spec fn spec_is_sensor_flag(m: SensorMetric) -> bool {
    match m {
        SensorMetric::ConfigOn | SensorMetric::ConfigConfigured | SensorMetric::ConfigReachable
        | SensorMetric::ConfigLedindication | SensorMetric::ConfigUsertest
        | SensorMetric::StateDaylight | SensorMetric::StateFlag | SensorMetric::StatePresence
        | SensorMetric::StateDark => true,
        _ => false,
    }
}

/// The order in which a sensor reports to the gauges.
pub open spec fn spec_sensor_order() -> Seq<SensorMetric> {
    seq![
        SensorMetric::ConfigOn,
        SensorMetric::ConfigConfigured,
        SensorMetric::ConfigSunriseoffset,
        SensorMetric::ConfigSunsetoffset,
        SensorMetric::ConfigReachable,
        SensorMetric::ConfigBattery,
        SensorMetric::ConfigLedindication,
        SensorMetric::ConfigUsertest,
        SensorMetric::ConfigSensitivity,
        SensorMetric::ConfigSensitivitymax,
        SensorMetric::ConfigTholddark,
        SensorMetric::ConfigTholdoffset,
        SensorMetric::StateDaylight,
        SensorMetric::StateFlag,
        SensorMetric::StatePresence,
        SensorMetric::StateDark,
        SensorMetric::StateStatus,
        SensorMetric::StateButtonevent,
        SensorMetric::StateTemperature,
        SensorMetric::StateLightlevel,
    ]
}

/// The order in which a light reports to the gauges.
pub open spec fn spec_light_order() -> Seq<LightMetric> {
    seq![
        LightMetric::StateReachable,
        LightMetric::StateOn,
        LightMetric::StateBri,
        LightMetric::StateHue,
        LightMetric::StateSat,
        LightMetric::StateCt,
    ]
}

/// One value set on a gauge, under the labels of the device it comes from.
#[derive(Debug, Clone, PartialEq, Eq)]
pub struct Sample {
    pub metric: Metric,
    /// The `name` label: the device's name.
    pub name: String,
    /// The `device_type` label: the device's type.
    pub device_type: String,
    pub value: i64,
}

/// The mathematical value of a [`Sample`].
pub struct SampleView {
    pub metric: Metric,
    pub name: Seq<char>,
    pub device_type: Seq<char>,
    pub value: i64,
}

impl View for Sample {
    type V = SampleView;

    open spec fn view(&self) -> SampleView {
        SampleView {
            metric: self.metric,
            name: self.name@,
            device_type: self.device_type@,
            value: self.value,
        }
    }
}

/// The mathematical value of a list of samples.
pub open spec fn samples_view(v: Seq<Sample>) -> Seq<SampleView> {
    v.map_values(|x: Sample| x@)
}

/// The samples a sensor contributes to the gauges `ms`, in that order: one
/// for each gauge to which the sensor reports a value.
pub open spec fn spec_sensor_samples_for(s: Sensor, ms: Seq<SensorMetric>) -> Seq<SampleView>
    decreases ms.len(),
{
    if ms.len() == 0 {
        seq![]
    } else {
        let earlier = spec_sensor_samples_for(s, ms.drop_last());
        match spec_sensor_value(s, ms.last()) {
            Some(v) => earlier.push(
                SampleView {
                    metric: Metric::Sensor(ms.last()),
                    name: s.name@,
                    device_type: s.device_type@,
                    value: v,
                },
            ),
            None => earlier,
        }
    }
}

/// The samples a light contributes to the gauges `ms`, in that order: one
/// for each gauge to which the light reports a value.
pub open spec fn spec_light_samples_for(l: Light, ms: Seq<LightMetric>) -> Seq<SampleView>
    decreases ms.len(),
{
    if ms.len() == 0 {
        seq![]
    } else {
        let earlier = spec_light_samples_for(l, ms.drop_last());
        match spec_light_value(l, ms.last()) {
            Some(v) => earlier.push(
                SampleView {
                    metric: Metric::Light(ms.last()),
                    name: l.name@,
                    device_type: l.device_type@,
                    value: v,
                },
            ),
            None => earlier,
        }
    }
}

/// All samples of a sensor, in the order in which it reports them.
pub open spec fn spec_sensor_samples(s: Sensor) -> Seq<SampleView> {
    spec_sensor_samples_for(s, spec_sensor_order())
}

/// All samples of a light, in the order in which it reports them.
pub open spec fn spec_light_samples(l: Light) -> Seq<SampleView> {
    spec_light_samples_for(l, spec_light_order())
}

/// The samples of all sensors and then all lights, each device's samples
/// together and in the order of the lists.
pub open spec fn spec_collected_samples(sensors: Seq<Sensor>, lights: Seq<Light>) -> Seq<SampleView> {
    sensors.map_values(|s: Sensor| spec_sensor_samples(s)).flatten() + lights.map_values(
        |l: Light| spec_light_samples(l),
    ).flatten()
}

impl SensorMetric {
    /// The sensor gauges in the order in which a sensor reports them.
    pub fn report_order() -> (order: Vec<SensorMetric>)
        ensures
            order@ == spec_sensor_order(),
    {
        vec![
            SensorMetric::ConfigOn,
            SensorMetric::ConfigConfigured,
            SensorMetric::ConfigSunriseoffset,
            SensorMetric::ConfigSunsetoffset,
            SensorMetric::ConfigReachable,
            SensorMetric::ConfigBattery,
            SensorMetric::ConfigLedindication,
            SensorMetric::ConfigUsertest,
            SensorMetric::ConfigSensitivity,
            SensorMetric::ConfigSensitivitymax,
            SensorMetric::ConfigTholddark,
            SensorMetric::ConfigTholdoffset,
            SensorMetric::StateDaylight,
            SensorMetric::StateFlag,
            SensorMetric::StatePresence,
            SensorMetric::StateDark,
            SensorMetric::StateStatus,
            SensorMetric::StateButtonevent,
            SensorMetric::StateTemperature,
            SensorMetric::StateLightlevel,
        ]
    }
}

impl LightMetric {
    /// The light gauges in the order in which a light reports them.
    pub fn report_order() -> (order: Vec<LightMetric>)
        ensures
            order@ == spec_light_order(),
    {
        vec![
            LightMetric::StateReachable,
            LightMetric::StateOn,
            LightMetric::StateBri,
            LightMetric::StateHue,
            LightMetric::StateSat,
            LightMetric::StateCt,
        ]
    }
}

fn flag(b: bool) -> (v: i64)
    ensures
        v == flag_value(b),
{
    if b {
        1
    } else {
        0
    }
}

fn opt_flag(b: Option<bool>) -> (v: Option<i64>)
    ensures
        v == opt_flag_value(b),
{
    match b {
        Some(b) => Some(flag(b)),
        None => None,
    }
}

impl Sensor {
    /// What this sensor reports to the gauge `m`, if anything.
    pub fn value_for(&self, m: SensorMetric) -> (v: Option<i64>)
        ensures
            v == spec_sensor_value(*self, m),
    {
        match m {
            SensorMetric::ConfigOn => Some(flag(self.config.on)),
            SensorMetric::ConfigConfigured => opt_flag(self.config.configured),
            SensorMetric::ConfigSunriseoffset => self.config.sunriseoffset,
            SensorMetric::ConfigSunsetoffset => self.config.sunsetoffset,
            SensorMetric::ConfigReachable => opt_flag(self.config.reachable),
            SensorMetric::ConfigBattery => self.config.battery,
            SensorMetric::ConfigLedindication => opt_flag(self.config.ledindication),
            SensorMetric::ConfigUsertest => opt_flag(self.config.usertest),
            SensorMetric::ConfigSensitivity => self.config.sensitivity,
            SensorMetric::ConfigSensitivitymax => self.config.sensitivitymax,
            SensorMetric::ConfigTholddark => self.config.tholddark,
            SensorMetric::ConfigTholdoffset => self.config.tholdoffset,
            SensorMetric::StateDaylight => opt_flag(self.state.daylight),
            SensorMetric::StateFlag => opt_flag(self.state.flag),
            SensorMetric::StatePresence => opt_flag(self.state.presence),
            SensorMetric::StateDark => opt_flag(self.state.dark),
            SensorMetric::StateStatus => self.state.status,
            SensorMetric::StateButtonevent => self.state.buttonevent,
            SensorMetric::StateTemperature => self.state.temperature,
            SensorMetric::StateLightlevel => self.state.lightlevel,
        }
    }

    /// The samples this sensor contributes to the gauges, in report order.
    pub fn samples(&self) -> (samples: Vec<Sample>)
        ensures
            samples_view(samples@) == spec_sensor_samples(*self),
    {
        let order = SensorMetric::report_order();
        let mut samples: Vec<Sample> = Vec::new();
        let mut i: usize = 0;
        while i < order.len()
            invariant
                order@ == spec_sensor_order(),
                i <= order@.len(),
                samples_view(samples@) == spec_sensor_samples_for(*self, order@.take(i as int)),
            decreases order@.len() - i,
        {
            let m = order[i];
            let ghost before = samples@;
            match self.value_for(m) {
                Some(v) => {
                    samples.push(
                        Sample {
                            metric: Metric::Sensor(m),
                            name: self.name.clone(),
                            device_type: self.device_type.clone(),
                            value: v,
                        },
                    );
                    assert(samples_view(samples@) =~= samples_view(before).push(samples@.last()@));
                },
                None => {},
            }
            assert(order@.take(i + 1).drop_last() =~= order@.take(i as int));
            i = i + 1;
        }
        assert(order@.take(order@.len() as int) =~= order@);
        samples
    }
}

impl Light {
    /// What this light reports to the gauge `m`, if anything.
    pub fn value_for(&self, m: LightMetric) -> (v: Option<i64>)
        ensures
            v == spec_light_value(*self, m),
    {
        match m {
            LightMetric::StateReachable => Some(flag(self.state.reachable)),
            LightMetric::StateOn => Some(flag(self.state.on)),
            LightMetric::StateBri => self.state.bri,
            LightMetric::StateHue => self.state.hue,
            LightMetric::StateSat => self.state.sat,
            LightMetric::StateCt => self.state.ct,
        }
    }

    /// The samples this light contributes to the gauges, in report order.
    pub fn samples(&self) -> (samples: Vec<Sample>)
        ensures
            samples_view(samples@) == spec_light_samples(*self),
    {
        let order = LightMetric::report_order();
        let mut samples: Vec<Sample> = Vec::new();
        let mut i: usize = 0;
        while i < order.len()
            invariant
                order@ == spec_light_order(),
                i <= order@.len(),
                samples_view(samples@) == spec_light_samples_for(*self, order@.take(i as int)),
            decreases order@.len() - i,
        {
            let m = order[i];
            let ghost before = samples@;
            match self.value_for(m) {
                Some(v) => {
                    samples.push(
                        Sample {
                            metric: Metric::Light(m),
                            name: self.name.clone(),
                            device_type: self.device_type.clone(),
                            value: v,
                        },
                    );
                    assert(samples_view(samples@) =~= samples_view(before).push(samples@.last()@));
                },
                None => {},
            }
            assert(order@.take(i + 1).drop_last() =~= order@.take(i as int));
            i = i + 1;
        }
        assert(order@.take(order@.len() as int) =~= order@);
        samples
    }
}

/// The samples of one scrape: those of every sensor, then those of every
/// light, each device's samples together, in the order of the lists.
pub fn collect_samples(sensors: &Vec<Sensor>, lights: &Vec<Light>) -> (samples: Vec<Sample>)
    ensures
        samples_view(samples@) == spec_collected_samples(sensors@, lights@),
{
    let mut samples: Vec<Sample> = Vec::new();
    let mut i: usize = 0;
    while i < sensors.len()
        invariant
            i <= sensors@.len(),
            samples_view(samples@) == sensors@.take(i as int).map_values(
                |s: Sensor| spec_sensor_samples(s),
            ).flatten(),
        decreases sensors@.len() - i,
    {
        let ghost before = samples@;
        let mut more = sensors[i].samples();
        let ghost added = more@;
        samples.append(&mut more);
        assert(samples_view(samples@) =~= samples_view(before) + samples_view(added));
        assert(sensors@.take(i + 1).map_values(|s: Sensor| spec_sensor_samples(s))
            =~= sensors@.take(i as int).map_values(|s: Sensor| spec_sensor_samples(s)).push(
            spec_sensor_samples(sensors@[i as int]),
        ));
        proof {
            sensors@.take(i as int).map_values(|s: Sensor| spec_sensor_samples(s)).lemma_flatten_push(
                spec_sensor_samples(sensors@[i as int]),
            );
        }
        i = i + 1;
    }
    assert(sensors@.take(sensors@.len() as int) =~= sensors@);
    let ghost from_sensors = samples@;
    let mut j: usize = 0;
    while j < lights.len()
        invariant
            j <= lights@.len(),
            samples_view(samples@) == samples_view(from_sensors) + lights@.take(j as int).map_values(
                |l: Light| spec_light_samples(l),
            ).flatten(),
        decreases lights@.len() - j,
    {
        let ghost before = samples@;
        let mut more = lights[j].samples();
        let ghost added = more@;
        samples.append(&mut more);
        assert(samples_view(samples@) =~= samples_view(before) + samples_view(added));
        assert(lights@.take(j + 1).map_values(|l: Light| spec_light_samples(l))
            =~= lights@.take(j as int).map_values(|l: Light| spec_light_samples(l)).push(
            spec_light_samples(lights@[j as int]),
        ));
        proof {
            lights@.take(j as int).map_values(|l: Light| spec_light_samples(l)).lemma_flatten_push(
                spec_light_samples(lights@[j as int]),
            );
        }
        j = j + 1;
    }
    assert(lights@.take(lights@.len() as int) =~= lights@);
    samples
}

proof fn lemma_sensor_samples_for(s: Sensor, ms: Seq<SensorMetric>)
    ensures
        forall|i: int|
            0 <= i < spec_sensor_samples_for(s, ms).len() ==> {
                let x = #[trigger] spec_sensor_samples_for(s, ms)[i];
                &&& x.name == s.name@
                &&& x.device_type == s.device_type@
                &&& x.metric matches Metric::Sensor(m) && ms.contains(m) && spec_sensor_value(s, m)
                    == Some(x.value)
            },
        forall|k: int|
            0 <= k < ms.len() && (#[trigger] spec_sensor_value(s, ms[k])) is Some ==> exists|i: int|
                0 <= i < spec_sensor_samples_for(s, ms).len() && (#[trigger] spec_sensor_samples_for(
                    s,
                    ms,
                )[i]).metric == Metric::Sensor(ms[k]),
        ms.no_duplicates() ==> forall|i: int, j: int|
            0 <= i < j < spec_sensor_samples_for(s, ms).len() ==> (#[trigger] spec_sensor_samples_for(
                s,
                ms,
            )[i]).metric != (#[trigger] spec_sensor_samples_for(s, ms)[j]).metric,
    decreases ms.len(),
{
    if ms.len() > 0 {
        let earlier = ms.drop_last();
        lemma_sensor_samples_for(s, earlier);
        let out = spec_sensor_samples_for(s, ms);
        let prev = spec_sensor_samples_for(s, earlier);
        assert forall|i: int| 0 <= i < prev.len() implies (#[trigger] prev[i]).metric matches Metric::Sensor(
            m,
        ) && ms.contains(m) by {
            let x = prev[i];
            if let Metric::Sensor(m) = x.metric {
                let k = choose|k: int| 0 <= k < earlier.len() && earlier[k] == m;
                assert(ms[k] == m);
            }
        }
        assert forall|k: int|
            0 <= k < ms.len() && (#[trigger] spec_sensor_value(s, ms[k])) is Some implies exists|i: int|
                0 <= i < out.len() && (#[trigger] out[i]).metric == Metric::Sensor(ms[k]) by {
            if k < ms.len() - 1 {
                assert(earlier[k] == ms[k]);
                let i = choose|i: int| 0 <= i < prev.len() && (#[trigger] prev[i]).metric == Metric::Sensor(
                    earlier[k],
                );
                assert(out[i] == prev[i]);
            } else {
                assert(out[prev.len() as int].metric == Metric::Sensor(ms[k]));
            }
        }
        if ms.no_duplicates() {
            assert(earlier.no_duplicates());
            assert forall|i: int| 0 <= i < prev.len() implies (#[trigger] prev[i]).metric != Metric::Sensor(
                ms.last(),
            ) by {
                if let Metric::Sensor(m) = prev[i].metric {
                    let k = choose|k: int| 0 <= k < earlier.len() && earlier[k] == m;
                    assert(ms[k] == earlier[k]);
                    assert(k != ms.len() - 1);
                }
            }
        }
    }
}

proof fn lemma_light_samples_for(l: Light, ms: Seq<LightMetric>)
    ensures
        forall|i: int|
            0 <= i < spec_light_samples_for(l, ms).len() ==> {
                let x = #[trigger] spec_light_samples_for(l, ms)[i];
                &&& x.name == l.name@
                &&& x.device_type == l.device_type@
                &&& x.metric matches Metric::Light(m) && ms.contains(m) && spec_light_value(l, m)
                    == Some(x.value)
            },
        forall|k: int|
            0 <= k < ms.len() && (#[trigger] spec_light_value(l, ms[k])) is Some ==> exists|i: int|
                0 <= i < spec_light_samples_for(l, ms).len() && (#[trigger] spec_light_samples_for(
                    l,
                    ms,
                )[i]).metric == Metric::Light(ms[k]),
        ms.no_duplicates() ==> forall|i: int, j: int|
            0 <= i < j < spec_light_samples_for(l, ms).len() ==> (#[trigger] spec_light_samples_for(
                l,
                ms,
            )[i]).metric != (#[trigger] spec_light_samples_for(l, ms)[j]).metric,
    decreases ms.len(),
{
    if ms.len() > 0 {
        let earlier = ms.drop_last();
        lemma_light_samples_for(l, earlier);
        let out = spec_light_samples_for(l, ms);
        let prev = spec_light_samples_for(l, earlier);
        assert forall|i: int| 0 <= i < prev.len() implies (#[trigger] prev[i]).metric matches Metric::Light(
            m,
        ) && ms.contains(m) by {
            let x = prev[i];
            if let Metric::Light(m) = x.metric {
                let k = choose|k: int| 0 <= k < earlier.len() && earlier[k] == m;
                assert(ms[k] == m);
            }
        }
        assert forall|k: int|
            0 <= k < ms.len() && (#[trigger] spec_light_value(l, ms[k])) is Some implies exists|i: int|
                0 <= i < out.len() && (#[trigger] out[i]).metric == Metric::Light(ms[k]) by {
            if k < ms.len() - 1 {
                assert(earlier[k] == ms[k]);
                let i = choose|i: int| 0 <= i < prev.len() && (#[trigger] prev[i]).metric == Metric::Light(
                    earlier[k],
                );
                assert(out[i] == prev[i]);
            } else {
                assert(out[prev.len() as int].metric == Metric::Light(ms[k]));
            }
        }
        if ms.no_duplicates() {
            assert(earlier.no_duplicates());
            assert forall|i: int| 0 <= i < prev.len() implies (#[trigger] prev[i]).metric != Metric::Light(
                ms.last(),
            ) by {
                if let Metric::Light(m) = prev[i].metric {
                    let k = choose|k: int| 0 <= k < earlier.len() && earlier[k] == m;
                    assert(ms[k] == earlier[k]);
                    assert(k != ms.len() - 1);
                }
            }
        }
    }
}

/// Every sensor gauge is in the sensors' report order, once.
proof fn lemma_sensor_order_complete(m: SensorMetric)
    ensures
        spec_sensor_order().contains(m),
        spec_sensor_order().no_duplicates(),
{
    let o = spec_sensor_order();
    let k: int = match m {
        SensorMetric::ConfigOn => 0,
        SensorMetric::ConfigConfigured => 1,
        SensorMetric::ConfigSunriseoffset => 2,
        SensorMetric::ConfigSunsetoffset => 3,
        SensorMetric::ConfigReachable => 4,
        SensorMetric::ConfigBattery => 5,
        SensorMetric::ConfigLedindication => 6,
        SensorMetric::ConfigUsertest => 7,
        SensorMetric::ConfigSensitivity => 8,
        SensorMetric::ConfigSensitivitymax => 9,
        SensorMetric::ConfigTholddark => 10,
        SensorMetric::ConfigTholdoffset => 11,
        SensorMetric::StateDaylight => 12,
        SensorMetric::StateFlag => 13,
        SensorMetric::StatePresence => 14,
        SensorMetric::StateDark => 15,
        SensorMetric::StateStatus => 16,
        SensorMetric::StateButtonevent => 17,
        SensorMetric::StateTemperature => 18,
        SensorMetric::StateLightlevel => 19,
    };
    assert(o[k] == m);
}

/// Every light gauge is in the lights' report order, once.
proof fn lemma_light_order_complete(m: LightMetric)
    ensures
        spec_light_order().contains(m),
        spec_light_order().no_duplicates(),
{
    let o = spec_light_order();
    let k: int = match m {
        LightMetric::StateReachable => 0,
        LightMetric::StateOn => 1,
        LightMetric::StateBri => 2,
        LightMetric::StateHue => 3,
        LightMetric::StateSat => 4,
        LightMetric::StateCt => 5,
    };
    assert(o[k] == m);
}

/// A sensor's samples all carry the sensor's name and type as labels, feed
/// each gauge at most once, and feed a gauge exactly when the sensor has a
/// value for it (the `on` flag always; an optional field when the bridge
/// sent it), with that value.
pub proof fn law_sensor_samples(s: Sensor)
    ensures
        forall|i: int|
            0 <= i < spec_sensor_samples(s).len() ==> (#[trigger] spec_sensor_samples(s)[i]).name
                == s.name@ && spec_sensor_samples(s)[i].device_type == s.device_type@,
        forall|i: int, j: int|
            0 <= i < j < spec_sensor_samples(s).len() ==> (#[trigger] spec_sensor_samples(s)[i]).metric
                != (#[trigger] spec_sensor_samples(s)[j]).metric,
        forall|m: SensorMetric|
            (#[trigger] spec_sensor_value(s, m)) is Some <==> exists|i: int|
                0 <= i < spec_sensor_samples(s).len() && (#[trigger] spec_sensor_samples(s)[i]).metric
                    == Metric::Sensor(m),
        forall|i: int, m: SensorMetric|
            #![trigger spec_sensor_samples(s)[i], spec_sensor_value(s, m)]
            0 <= i < spec_sensor_samples(s).len() && spec_sensor_samples(s)[i].metric == Metric::Sensor(m) ==> spec_sensor_value(s, m) == Some(
                spec_sensor_samples(s)[i].value,
            ),
{
    let o = spec_sensor_order();
    lemma_sensor_order_complete(SensorMetric::ConfigOn);
    lemma_sensor_samples_for(s, o);
    assert forall|m: SensorMetric|
        (#[trigger] spec_sensor_value(s, m)) is Some implies exists|i: int|
            0 <= i < spec_sensor_samples(s).len() && (#[trigger] spec_sensor_samples(s)[i]).metric
                == Metric::Sensor(m) by {
        lemma_sensor_order_complete(m);
        let k = choose|k: int| 0 <= k < o.len() && o[k] == m;
        assert(spec_sensor_value(s, o[k]) is Some);
    }
}

/// A light's samples all carry the light's name and type as labels, feed
/// each gauge at most once, and feed a gauge exactly when the light has a
/// value for it (`reachable` and `on` always; an optional field when the
/// bridge sent it), with that value.
pub proof fn law_light_samples(l: Light)
    ensures
        forall|i: int|
            0 <= i < spec_light_samples(l).len() ==> (#[trigger] spec_light_samples(l)[i]).name
                == l.name@ && spec_light_samples(l)[i].device_type == l.device_type@,
        forall|i: int, j: int|
            0 <= i < j < spec_light_samples(l).len() ==> (#[trigger] spec_light_samples(l)[i]).metric
                != (#[trigger] spec_light_samples(l)[j]).metric,
        forall|m: LightMetric|
            (#[trigger] spec_light_value(l, m)) is Some <==> exists|i: int|
                0 <= i < spec_light_samples(l).len() && (#[trigger] spec_light_samples(l)[i]).metric
                    == Metric::Light(m),
        forall|i: int, m: LightMetric|
            #![trigger spec_light_samples(l)[i], spec_light_value(l, m)]
            0 <= i < spec_light_samples(l).len() && spec_light_samples(l)[i].metric == Metric::Light(m) ==> spec_light_value(l, m) == Some(
                spec_light_samples(l)[i].value,
            ),
{
    let o = spec_light_order();
    lemma_light_order_complete(LightMetric::StateOn);
    lemma_light_samples_for(l, o);
    assert forall|m: LightMetric|
        (#[trigger] spec_light_value(l, m)) is Some implies exists|i: int|
            0 <= i < spec_light_samples(l).len() && (#[trigger] spec_light_samples(l)[i]).metric
                == Metric::Light(m) by {
        lemma_light_order_complete(m);
        let k = choose|k: int| 0 <= k < o.len() && o[k] == m;
        assert(spec_light_value(l, o[k]) is Some);
    }
}

/// A gauge fed from a flag shows 1 for a set flag and 0 for a cleared one:
/// a sensor's flag gauges, and a light's `reachable` and `on`, only ever
/// receive 0 or 1.
pub proof fn law_flags_are_zero_or_one(s: Sensor, l: Light)
    ensures
        forall|m: SensorMetric|
            spec_is_sensor_flag(m) && (#[trigger] spec_sensor_value(s, m)) is Some ==> {
                let v = spec_sensor_value(s, m).unwrap();
                v == 0 || v == 1
            },
        spec_light_value(l, LightMetric::StateReachable) == Some(flag_value(l.state.reachable)),
        spec_light_value(l, LightMetric::StateOn) == Some(flag_value(l.state.on)),
        flag_value(true) == 1 && flag_value(false) == 0,
{
}

/// Distinct sensor gauges have distinct suffixes.
proof fn lemma_sensor_suffix_injective(a: SensorMetric, b: SensorMetric)
    requires
        a != b,
    ensures
        spec_sensor_suffix(a) != spec_sensor_suffix(b),
{
    reveal_strlit("config_on");
    reveal_strlit("config_configured");
    reveal_strlit("config_sunriseoffset");
    reveal_strlit("config_sunsetoffset");
    reveal_strlit("config_reachable");
    reveal_strlit("config_battery");
    reveal_strlit("config_ledindication");
    reveal_strlit("config_usertest");
    reveal_strlit("config_sensitivity");
    reveal_strlit("config_sensitivitymax");
    reveal_strlit("config_tholddark");
    reveal_strlit("config_tholdoffset");
    reveal_strlit("state_daylight");
    reveal_strlit("state_flag");
    reveal_strlit("state_presence");
    reveal_strlit("state_dark");
    reveal_strlit("state_status");
    reveal_strlit("state_buttonevent");
    reveal_strlit("state_temperature");
    reveal_strlit("state_lightlevel");
    let sa = spec_sensor_suffix(a);
    let sb = spec_sensor_suffix(b);
    assert(sa.len() != sb.len() || sa[7] != sb[7]);
}

/// Distinct light gauges have distinct suffixes.
proof fn lemma_light_suffix_injective(a: LightMetric, b: LightMetric)
    requires
        a != b,
    ensures
        spec_light_suffix(a) != spec_light_suffix(b),
{
    reveal_strlit("state_reachable");
    reveal_strlit("state_on");
    reveal_strlit("state_bri");
    reveal_strlit("state_hue");
    reveal_strlit("state_sat");
    reveal_strlit("state_ct");
    let sa = spec_light_suffix(a);
    let sb = spec_light_suffix(b);
    assert(sa.len() != sb.len() || sa[6] != sb[6]);
}

/// Prepending the same text keeps distinct texts distinct.
proof fn lemma_prefix_keeps_distinct(p: Seq<char>, x: Seq<char>, y: Seq<char>)
    requires
        x != y,
    ensures
        p + x != p + y,
{
    if p + x == p + y {
        assert((p + x).skip(p.len() as int) =~= x);
        assert((p + y).skip(p.len() as int) =~= y);
    }
}

/// Every gauge has a name of its own, so that registering all of them with
/// one registry never meets a name that is already taken.
pub proof fn law_gauge_names_distinct(a: Metric, b: Metric)
    requires
        a != b,
    ensures
        spec_metric_name(a) != spec_metric_name(b),
{
    reveal_strlit("hue_sensors_");
    reveal_strlit("hue_lights_");
    match (a, b) {
        (Metric::Sensor(x), Metric::Sensor(y)) => {
            lemma_sensor_suffix_injective(x, y);
            lemma_prefix_keeps_distinct("hue_sensors_"@, spec_sensor_suffix(x), spec_sensor_suffix(y));
        },
        (Metric::Light(x), Metric::Light(y)) => {
            lemma_light_suffix_injective(x, y);
            lemma_prefix_keeps_distinct("hue_lights_"@, spec_light_suffix(x), spec_light_suffix(y));
        },
        _ => {
            assert(spec_metric_name(a)[4] != spec_metric_name(b)[4]);
        },
    }
}

/// Each sensor gauge reads the sensor field it is named after: a flag as 1
/// when set and 0 when cleared, a number as it is, and nothing when the
/// bridge left the field out.
pub proof fn law_sensor_gauges_read_their_fields(s: Sensor)
    ensures
        spec_sensor_value(s, SensorMetric::ConfigOn) == Some(if s.config.on { 1i64 } else { 0i64 }),
        spec_sensor_value(s, SensorMetric::ConfigConfigured) == (match s.config.configured { Some(true) => Some(1i64), Some(false) => Some(0i64), None => None }),
        spec_sensor_value(s, SensorMetric::ConfigSunriseoffset) == s.config.sunriseoffset,
        spec_sensor_value(s, SensorMetric::ConfigSunsetoffset) == s.config.sunsetoffset,
        spec_sensor_value(s, SensorMetric::ConfigReachable) == (match s.config.reachable { Some(true) => Some(1i64), Some(false) => Some(0i64), None => None }),
        spec_sensor_value(s, SensorMetric::ConfigBattery) == s.config.battery,
        spec_sensor_value(s, SensorMetric::ConfigLedindication) == (match s.config.ledindication { Some(true) => Some(1i64), Some(false) => Some(0i64), None => None }),
        spec_sensor_value(s, SensorMetric::ConfigUsertest) == (match s.config.usertest { Some(true) => Some(1i64), Some(false) => Some(0i64), None => None }),
        spec_sensor_value(s, SensorMetric::ConfigSensitivity) == s.config.sensitivity,
        spec_sensor_value(s, SensorMetric::ConfigSensitivitymax) == s.config.sensitivitymax,
        spec_sensor_value(s, SensorMetric::ConfigTholddark) == s.config.tholddark,
        spec_sensor_value(s, SensorMetric::ConfigTholdoffset) == s.config.tholdoffset,
        spec_sensor_value(s, SensorMetric::StateDaylight) == (match s.state.daylight { Some(true) => Some(1i64), Some(false) => Some(0i64), None => None }),
        spec_sensor_value(s, SensorMetric::StateFlag) == (match s.state.flag { Some(true) => Some(1i64), Some(false) => Some(0i64), None => None }),
        spec_sensor_value(s, SensorMetric::StatePresence) == (match s.state.presence { Some(true) => Some(1i64), Some(false) => Some(0i64), None => None }),
        spec_sensor_value(s, SensorMetric::StateDark) == (match s.state.dark { Some(true) => Some(1i64), Some(false) => Some(0i64), None => None }),
        spec_sensor_value(s, SensorMetric::StateStatus) == s.state.status,
        spec_sensor_value(s, SensorMetric::StateButtonevent) == s.state.buttonevent,
        spec_sensor_value(s, SensorMetric::StateTemperature) == s.state.temperature,
        spec_sensor_value(s, SensorMetric::StateLightlevel) == s.state.lightlevel,
{
}

/// Each light gauge reads the light field it is named after: `reachable`
/// and `on` as 1 or 0, the others as they are when the bridge sent them.
pub proof fn law_light_gauges_read_their_fields(l: Light)
    ensures
        spec_light_value(l, LightMetric::StateReachable) == Some(if l.state.reachable { 1i64 } else { 0i64 }),
        spec_light_value(l, LightMetric::StateOn) == Some(if l.state.on { 1i64 } else { 0i64 }),
        spec_light_value(l, LightMetric::StateBri) == l.state.bri,
        spec_light_value(l, LightMetric::StateHue) == l.state.hue,
        spec_light_value(l, LightMetric::StateSat) == l.state.sat,
        spec_light_value(l, LightMetric::StateCt) == l.state.ct,
{
}

/// Only the temperature gauge is scaled from hundredths, and it is fed from
/// the sensor's temperature, which the bridge reports in hundredths of a
/// degree Celsius.
pub proof fn law_only_temperature_in_hundredths(m: Metric, s: Sensor)
    ensures
        spec_in_hundredths(m) <==> m == Metric::Sensor(SensorMetric::StateTemperature),
        spec_sensor_value(s, SensorMetric::StateTemperature) == s.state.temperature,
{
}

/// Each sensor gauge is registered under `hue_sensors_` followed by the
/// name of the sensor field that feeds it, with the help text
/// `Hue sensor value ` followed by that field's name.
pub proof fn law_sensor_gauge_names(m: SensorMetric)
    ensures
        match m {
            SensorMetric::ConfigOn => spec_metric_name(Metric::Sensor(m)) == "hue_sensors_config_on"@
                && spec_metric_help(Metric::Sensor(m)) == "Hue sensor value config_on"@,
            SensorMetric::ConfigConfigured => spec_metric_name(Metric::Sensor(m)) == "hue_sensors_config_configured"@
                && spec_metric_help(Metric::Sensor(m)) == "Hue sensor value config_configured"@,
            SensorMetric::ConfigSunriseoffset => spec_metric_name(Metric::Sensor(m)) == "hue_sensors_config_sunriseoffset"@
                && spec_metric_help(Metric::Sensor(m)) == "Hue sensor value config_sunriseoffset"@,
            SensorMetric::ConfigSunsetoffset => spec_metric_name(Metric::Sensor(m)) == "hue_sensors_config_sunsetoffset"@
                && spec_metric_help(Metric::Sensor(m)) == "Hue sensor value config_sunsetoffset"@,
            SensorMetric::ConfigReachable => spec_metric_name(Metric::Sensor(m)) == "hue_sensors_config_reachable"@
                && spec_metric_help(Metric::Sensor(m)) == "Hue sensor value config_reachable"@,
            SensorMetric::ConfigBattery => spec_metric_name(Metric::Sensor(m)) == "hue_sensors_config_battery"@
                && spec_metric_help(Metric::Sensor(m)) == "Hue sensor value config_battery"@,
            SensorMetric::ConfigLedindication => spec_metric_name(Metric::Sensor(m)) == "hue_sensors_config_ledindication"@
                && spec_metric_help(Metric::Sensor(m)) == "Hue sensor value config_ledindication"@,
            SensorMetric::ConfigUsertest => spec_metric_name(Metric::Sensor(m)) == "hue_sensors_config_usertest"@
                && spec_metric_help(Metric::Sensor(m)) == "Hue sensor value config_usertest"@,
            SensorMetric::ConfigSensitivity => spec_metric_name(Metric::Sensor(m)) == "hue_sensors_config_sensitivity"@
                && spec_metric_help(Metric::Sensor(m)) == "Hue sensor value config_sensitivity"@,
            SensorMetric::ConfigSensitivitymax => spec_metric_name(Metric::Sensor(m)) == "hue_sensors_config_sensitivitymax"@
                && spec_metric_help(Metric::Sensor(m)) == "Hue sensor value config_sensitivitymax"@,
            SensorMetric::ConfigTholddark => spec_metric_name(Metric::Sensor(m)) == "hue_sensors_config_tholddark"@
                && spec_metric_help(Metric::Sensor(m)) == "Hue sensor value config_tholddark"@,
            SensorMetric::ConfigTholdoffset => spec_metric_name(Metric::Sensor(m)) == "hue_sensors_config_tholdoffset"@
                && spec_metric_help(Metric::Sensor(m)) == "Hue sensor value config_tholdoffset"@,
            SensorMetric::StateDaylight => spec_metric_name(Metric::Sensor(m)) == "hue_sensors_state_daylight"@
                && spec_metric_help(Metric::Sensor(m)) == "Hue sensor value state_daylight"@,
            SensorMetric::StateFlag => spec_metric_name(Metric::Sensor(m)) == "hue_sensors_state_flag"@
                && spec_metric_help(Metric::Sensor(m)) == "Hue sensor value state_flag"@,
            SensorMetric::StatePresence => spec_metric_name(Metric::Sensor(m)) == "hue_sensors_state_presence"@
                && spec_metric_help(Metric::Sensor(m)) == "Hue sensor value state_presence"@,
            SensorMetric::StateDark => spec_metric_name(Metric::Sensor(m)) == "hue_sensors_state_dark"@
                && spec_metric_help(Metric::Sensor(m)) == "Hue sensor value state_dark"@,
            SensorMetric::StateStatus => spec_metric_name(Metric::Sensor(m)) == "hue_sensors_state_status"@
                && spec_metric_help(Metric::Sensor(m)) == "Hue sensor value state_status"@,
            SensorMetric::StateButtonevent => spec_metric_name(Metric::Sensor(m)) == "hue_sensors_state_buttonevent"@
                && spec_metric_help(Metric::Sensor(m)) == "Hue sensor value state_buttonevent"@,
            SensorMetric::StateTemperature => spec_metric_name(Metric::Sensor(m)) == "hue_sensors_state_temperature"@
                && spec_metric_help(Metric::Sensor(m)) == "Hue sensor value state_temperature"@,
            SensorMetric::StateLightlevel => spec_metric_name(Metric::Sensor(m)) == "hue_sensors_state_lightlevel"@
                && spec_metric_help(Metric::Sensor(m)) == "Hue sensor value state_lightlevel"@,
        },
{
    reveal_strlit("hue_sensors_");
    reveal_strlit("Hue sensor value ");
    match m {
        SensorMetric::ConfigOn => {
            reveal_strlit("config_on");
            reveal_strlit("hue_sensors_config_on");
            reveal_strlit("Hue sensor value config_on");
            assert(spec_metric_name(Metric::Sensor(m)) =~= "hue_sensors_config_on"@);
            assert(spec_metric_help(Metric::Sensor(m)) =~= "Hue sensor value config_on"@);
        },
        SensorMetric::ConfigConfigured => {
            reveal_strlit("config_configured");
            reveal_strlit("hue_sensors_config_configured");
            reveal_strlit("Hue sensor value config_configured");
            assert(spec_metric_name(Metric::Sensor(m)) =~= "hue_sensors_config_configured"@);
            assert(spec_metric_help(Metric::Sensor(m)) =~= "Hue sensor value config_configured"@);
        },
        SensorMetric::ConfigSunriseoffset => {
            reveal_strlit("config_sunriseoffset");
            reveal_strlit("hue_sensors_config_sunriseoffset");
            reveal_strlit("Hue sensor value config_sunriseoffset");
            assert(spec_metric_name(Metric::Sensor(m)) =~= "hue_sensors_config_sunriseoffset"@);
            assert(spec_metric_help(Metric::Sensor(m)) =~= "Hue sensor value config_sunriseoffset"@);
        },
        SensorMetric::ConfigSunsetoffset => {
            reveal_strlit("config_sunsetoffset");
            reveal_strlit("hue_sensors_config_sunsetoffset");
            reveal_strlit("Hue sensor value config_sunsetoffset");
            assert(spec_metric_name(Metric::Sensor(m)) =~= "hue_sensors_config_sunsetoffset"@);
            assert(spec_metric_help(Metric::Sensor(m)) =~= "Hue sensor value config_sunsetoffset"@);
        },
        SensorMetric::ConfigReachable => {
            reveal_strlit("config_reachable");
            reveal_strlit("hue_sensors_config_reachable");
            reveal_strlit("Hue sensor value config_reachable");
            assert(spec_metric_name(Metric::Sensor(m)) =~= "hue_sensors_config_reachable"@);
            assert(spec_metric_help(Metric::Sensor(m)) =~= "Hue sensor value config_reachable"@);
        },
        SensorMetric::ConfigBattery => {
            reveal_strlit("config_battery");
            reveal_strlit("hue_sensors_config_battery");
            reveal_strlit("Hue sensor value config_battery");
            assert(spec_metric_name(Metric::Sensor(m)) =~= "hue_sensors_config_battery"@);
            assert(spec_metric_help(Metric::Sensor(m)) =~= "Hue sensor value config_battery"@);
        },
        SensorMetric::ConfigLedindication => {
            reveal_strlit("config_ledindication");
            reveal_strlit("hue_sensors_config_ledindication");
            reveal_strlit("Hue sensor value config_ledindication");
            assert(spec_metric_name(Metric::Sensor(m)) =~= "hue_sensors_config_ledindication"@);
            assert(spec_metric_help(Metric::Sensor(m)) =~= "Hue sensor value config_ledindication"@);
        },
        SensorMetric::ConfigUsertest => {
            reveal_strlit("config_usertest");
            reveal_strlit("hue_sensors_config_usertest");
            reveal_strlit("Hue sensor value config_usertest");
            assert(spec_metric_name(Metric::Sensor(m)) =~= "hue_sensors_config_usertest"@);
            assert(spec_metric_help(Metric::Sensor(m)) =~= "Hue sensor value config_usertest"@);
        },
        SensorMetric::ConfigSensitivity => {
            reveal_strlit("config_sensitivity");
            reveal_strlit("hue_sensors_config_sensitivity");
            reveal_strlit("Hue sensor value config_sensitivity");
            assert(spec_metric_name(Metric::Sensor(m)) =~= "hue_sensors_config_sensitivity"@);
            assert(spec_metric_help(Metric::Sensor(m)) =~= "Hue sensor value config_sensitivity"@);
        },
        SensorMetric::ConfigSensitivitymax => {
            reveal_strlit("config_sensitivitymax");
            reveal_strlit("hue_sensors_config_sensitivitymax");
            reveal_strlit("Hue sensor value config_sensitivitymax");
            assert(spec_metric_name(Metric::Sensor(m)) =~= "hue_sensors_config_sensitivitymax"@);
            assert(spec_metric_help(Metric::Sensor(m)) =~= "Hue sensor value config_sensitivitymax"@);
        },
        SensorMetric::ConfigTholddark => {
            reveal_strlit("config_tholddark");
            reveal_strlit("hue_sensors_config_tholddark");
            reveal_strlit("Hue sensor value config_tholddark");
            assert(spec_metric_name(Metric::Sensor(m)) =~= "hue_sensors_config_tholddark"@);
            assert(spec_metric_help(Metric::Sensor(m)) =~= "Hue sensor value config_tholddark"@);
        },
        SensorMetric::ConfigTholdoffset => {
            reveal_strlit("config_tholdoffset");
            reveal_strlit("hue_sensors_config_tholdoffset");
            reveal_strlit("Hue sensor value config_tholdoffset");
            assert(spec_metric_name(Metric::Sensor(m)) =~= "hue_sensors_config_tholdoffset"@);
            assert(spec_metric_help(Metric::Sensor(m)) =~= "Hue sensor value config_tholdoffset"@);
        },
        SensorMetric::StateDaylight => {
            reveal_strlit("state_daylight");
            reveal_strlit("hue_sensors_state_daylight");
            reveal_strlit("Hue sensor value state_daylight");
            assert(spec_metric_name(Metric::Sensor(m)) =~= "hue_sensors_state_daylight"@);
            assert(spec_metric_help(Metric::Sensor(m)) =~= "Hue sensor value state_daylight"@);
        },
        SensorMetric::StateFlag => {
            reveal_strlit("state_flag");
            reveal_strlit("hue_sensors_state_flag");
            reveal_strlit("Hue sensor value state_flag");
            assert(spec_metric_name(Metric::Sensor(m)) =~= "hue_sensors_state_flag"@);
            assert(spec_metric_help(Metric::Sensor(m)) =~= "Hue sensor value state_flag"@);
        },
        SensorMetric::StatePresence => {
            reveal_strlit("state_presence");
            reveal_strlit("hue_sensors_state_presence");
            reveal_strlit("Hue sensor value state_presence");
            assert(spec_metric_name(Metric::Sensor(m)) =~= "hue_sensors_state_presence"@);
            assert(spec_metric_help(Metric::Sensor(m)) =~= "Hue sensor value state_presence"@);
        },
        SensorMetric::StateDark => {
            reveal_strlit("state_dark");
            reveal_strlit("hue_sensors_state_dark");
            reveal_strlit("Hue sensor value state_dark");
            assert(spec_metric_name(Metric::Sensor(m)) =~= "hue_sensors_state_dark"@);
            assert(spec_metric_help(Metric::Sensor(m)) =~= "Hue sensor value state_dark"@);
        },
        SensorMetric::StateStatus => {
            reveal_strlit("state_status");
            reveal_strlit("hue_sensors_state_status");
            reveal_strlit("Hue sensor value state_status");
            assert(spec_metric_name(Metric::Sensor(m)) =~= "hue_sensors_state_status"@);
            assert(spec_metric_help(Metric::Sensor(m)) =~= "Hue sensor value state_status"@);
        },
        SensorMetric::StateButtonevent => {
            reveal_strlit("state_buttonevent");
            reveal_strlit("hue_sensors_state_buttonevent");
            reveal_strlit("Hue sensor value state_buttonevent");
            assert(spec_metric_name(Metric::Sensor(m)) =~= "hue_sensors_state_buttonevent"@);
            assert(spec_metric_help(Metric::Sensor(m)) =~= "Hue sensor value state_buttonevent"@);
        },
        SensorMetric::StateTemperature => {
            reveal_strlit("state_temperature");
            reveal_strlit("hue_sensors_state_temperature");
            reveal_strlit("Hue sensor value state_temperature");
            assert(spec_metric_name(Metric::Sensor(m)) =~= "hue_sensors_state_temperature"@);
            assert(spec_metric_help(Metric::Sensor(m)) =~= "Hue sensor value state_temperature"@);
        },
        SensorMetric::StateLightlevel => {
            reveal_strlit("state_lightlevel");
            reveal_strlit("hue_sensors_state_lightlevel");
            reveal_strlit("Hue sensor value state_lightlevel");
            assert(spec_metric_name(Metric::Sensor(m)) =~= "hue_sensors_state_lightlevel"@);
            assert(spec_metric_help(Metric::Sensor(m)) =~= "Hue sensor value state_lightlevel"@);
        },
    }
}

/// Each light gauge is registered under `hue_lights_` followed by the name
/// of the light field that feeds it, with the help text `Hue light value `
/// followed by that field's name.
pub proof fn law_light_gauge_names(m: LightMetric)
    ensures
        match m {
            LightMetric::StateReachable => spec_metric_name(Metric::Light(m)) == "hue_lights_state_reachable"@
                && spec_metric_help(Metric::Light(m)) == "Hue light value state_reachable"@,
            LightMetric::StateOn => spec_metric_name(Metric::Light(m)) == "hue_lights_state_on"@
                && spec_metric_help(Metric::Light(m)) == "Hue light value state_on"@,
            LightMetric::StateBri => spec_metric_name(Metric::Light(m)) == "hue_lights_state_bri"@
                && spec_metric_help(Metric::Light(m)) == "Hue light value state_bri"@,
            LightMetric::StateHue => spec_metric_name(Metric::Light(m)) == "hue_lights_state_hue"@
                && spec_metric_help(Metric::Light(m)) == "Hue light value state_hue"@,
            LightMetric::StateSat => spec_metric_name(Metric::Light(m)) == "hue_lights_state_sat"@
                && spec_metric_help(Metric::Light(m)) == "Hue light value state_sat"@,
            LightMetric::StateCt => spec_metric_name(Metric::Light(m)) == "hue_lights_state_ct"@
                && spec_metric_help(Metric::Light(m)) == "Hue light value state_ct"@,
        },
{
    reveal_strlit("hue_lights_");
    reveal_strlit("Hue light value ");
    match m {
        LightMetric::StateReachable => {
            reveal_strlit("state_reachable");
            reveal_strlit("hue_lights_state_reachable");
            reveal_strlit("Hue light value state_reachable");
            assert(spec_metric_name(Metric::Light(m)) =~= "hue_lights_state_reachable"@);
            assert(spec_metric_help(Metric::Light(m)) =~= "Hue light value state_reachable"@);
        },
        LightMetric::StateOn => {
            reveal_strlit("state_on");
            reveal_strlit("hue_lights_state_on");
            reveal_strlit("Hue light value state_on");
            assert(spec_metric_name(Metric::Light(m)) =~= "hue_lights_state_on"@);
            assert(spec_metric_help(Metric::Light(m)) =~= "Hue light value state_on"@);
        },
        LightMetric::StateBri => {
            reveal_strlit("state_bri");
            reveal_strlit("hue_lights_state_bri");
            reveal_strlit("Hue light value state_bri");
            assert(spec_metric_name(Metric::Light(m)) =~= "hue_lights_state_bri"@);
            assert(spec_metric_help(Metric::Light(m)) =~= "Hue light value state_bri"@);
        },
        LightMetric::StateHue => {
            reveal_strlit("state_hue");
            reveal_strlit("hue_lights_state_hue");
            reveal_strlit("Hue light value state_hue");
            assert(spec_metric_name(Metric::Light(m)) =~= "hue_lights_state_hue"@);
            assert(spec_metric_help(Metric::Light(m)) =~= "Hue light value state_hue"@);
        },
        LightMetric::StateSat => {
            reveal_strlit("state_sat");
            reveal_strlit("hue_lights_state_sat");
            reveal_strlit("Hue light value state_sat");
            assert(spec_metric_name(Metric::Light(m)) =~= "hue_lights_state_sat"@);
            assert(spec_metric_help(Metric::Light(m)) =~= "Hue light value state_sat"@);
        },
        LightMetric::StateCt => {
            reveal_strlit("state_ct");
            reveal_strlit("hue_lights_state_ct");
            reveal_strlit("Hue light value state_ct");
            assert(spec_metric_name(Metric::Light(m)) =~= "hue_lights_state_ct"@);
            assert(spec_metric_help(Metric::Light(m)) =~= "Hue light value state_ct"@);
        },
    }
}

/// Whether `x` is a member of one of the blocks `ss`.
pub open spec fn in_some_block<A>(ss: Seq<Seq<A>>, x: A) -> bool {
    exists|j: int, k: int| 0 <= j < ss.len() && 0 <= k < ss[j].len() && #[trigger] ss[j][k] == x
}

/// Every member of every block is a member of the flattened sequence, and
/// every member of the flattened sequence comes from some block.
proof fn lemma_flatten_members<A>(ss: Seq<Seq<A>>)
    ensures
        forall|j: int, k: int|
            0 <= j < ss.len() && 0 <= k < ss[j].len() ==> ss.flatten().contains(#[trigger] ss[j][k]),
        forall|i: int| 0 <= i < ss.flatten().len() ==> in_some_block(ss, #[trigger] ss.flatten()[i]),
    decreases ss.len(),
{
    if ss.len() > 0 {
        let rest = ss.drop_first();
        lemma_flatten_members(rest);
        let f = ss.flatten();
        assert(f == ss[0] + rest.flatten());
        assert forall|j: int, k: int| 0 <= j < ss.len() && 0 <= k < ss[j].len() implies f.contains(
            #[trigger] ss[j][k],
        ) by {
            if j == 0 {
                assert(f[k] == ss[0][k]);
            } else {
                assert(ss[j] == rest[j - 1]);
                assert(rest.flatten().contains(rest[j - 1][k]));
                let i = choose|i: int| 0 <= i < rest.flatten().len() && rest.flatten()[i] == rest[j - 1][k];
                assert(f[ss[0].len() + i] == rest.flatten()[i]);
            }
        }
        assert forall|i: int| 0 <= i < f.len() implies in_some_block(ss, #[trigger] f[i]) by {
            if i < ss[0].len() {
                assert(f[i] == ss[0][i]);
            } else {
                let i2 = i - ss[0].len();
                assert(f[i] == rest.flatten()[i2]);
                assert(in_some_block(rest, rest.flatten()[i2]));
                let (j, k) = choose|j: int, k: int|
                    0 <= j < rest.len() && 0 <= k < rest[j].len() && #[trigger] rest[j][k] == rest.flatten()[i2];
                assert(rest[j] == ss[j + 1]);
                assert(f[i] == ss[j + 1][k]);
            }
        }
    }
}

/// The number of samples the sensors `ss` contribute together.
pub open spec fn sensors_sample_count(ss: Seq<Sensor>) -> int
    decreases ss.len(),
{
    if ss.len() == 0 {
        0
    } else {
        sensors_sample_count(ss.drop_last()) + spec_sensor_samples(ss.last()).len()
    }
}

/// The number of samples the lights `ls` contribute together.
pub open spec fn lights_sample_count(ls: Seq<Light>) -> int
    decreases ls.len(),
{
    if ls.len() == 0 {
        0
    } else {
        lights_sample_count(ls.drop_last()) + spec_light_samples(ls.last()).len()
    }
}

proof fn lemma_sensors_flatten_len(ss: Seq<Sensor>)
    ensures
        ss.map_values(|s: Sensor| spec_sensor_samples(s)).flatten().len() == sensors_sample_count(ss),
    decreases ss.len(),
{
    if ss.len() > 0 {
        lemma_sensors_flatten_len(ss.drop_last());
        let m = ss.map_values(|s: Sensor| spec_sensor_samples(s));
        assert(m =~= ss.drop_last().map_values(|s: Sensor| spec_sensor_samples(s)).push(
            spec_sensor_samples(ss.last()),
        ));
        ss.drop_last().map_values(|s: Sensor| spec_sensor_samples(s)).lemma_flatten_push(
            spec_sensor_samples(ss.last()),
        );
    }
}

proof fn lemma_lights_flatten_len(ls: Seq<Light>)
    ensures
        ls.map_values(|l: Light| spec_light_samples(l)).flatten().len() == lights_sample_count(ls),
    decreases ls.len(),
{
    if ls.len() > 0 {
        lemma_lights_flatten_len(ls.drop_last());
        let m = ls.map_values(|l: Light| spec_light_samples(l));
        assert(m =~= ls.drop_last().map_values(|l: Light| spec_light_samples(l)).push(
            spec_light_samples(ls.last()),
        ));
        ls.drop_last().map_values(|l: Light| spec_light_samples(l)).lemma_flatten_push(
            spec_light_samples(ls.last()),
        );
    }
}

/// Whether `x` is one of the samples of one of the sensors or lights.
pub open spec fn is_device_sample(sensors: Seq<Sensor>, lights: Seq<Light>, x: SampleView) -> bool {
    (exists|j: int, k: int|
        0 <= j < sensors.len() && 0 <= k < spec_sensor_samples(sensors[j]).len()
            && #[trigger] spec_sensor_samples(sensors[j])[k] == x) || (exists|j: int, k: int|
        0 <= j < lights.len() && 0 <= k < spec_light_samples(lights[j]).len()
            && #[trigger] spec_light_samples(lights[j])[k] == x)
}

/// The samples of a scrape are those of its devices and nothing else: every
/// sample of every sensor and of every light is among them, each of them is
/// a sample of one of the sensors or lights, all sensor samples come before
/// all light samples, and there are as many as the devices contribute
/// together (so none is repeated beyond what the devices give).
pub proof fn law_collected_samples(sensors: Seq<Sensor>, lights: Seq<Light>)
    ensures
        forall|j: int, k: int|
            0 <= j < sensors.len() && 0 <= k < spec_sensor_samples(sensors[j]).len()
                ==> spec_collected_samples(sensors, lights).contains(
                #[trigger] spec_sensor_samples(sensors[j])[k],
            ),
        forall|j: int, k: int|
            0 <= j < lights.len() && 0 <= k < spec_light_samples(lights[j]).len()
                ==> spec_collected_samples(sensors, lights).contains(
                #[trigger] spec_light_samples(lights[j])[k],
            ),
        forall|i: int|
            0 <= i < spec_collected_samples(sensors, lights).len() ==> is_device_sample(
                sensors,
                lights,
                #[trigger] spec_collected_samples(sensors, lights)[i],
            ),
        forall|i: int, j: int|
            0 <= i < j < spec_collected_samples(sensors, lights).len() ==> !((
            #[trigger] spec_collected_samples(sensors, lights)[i]).metric is Light && (
            #[trigger] spec_collected_samples(sensors, lights)[j]).metric is Sensor),
        spec_collected_samples(sensors, lights).len() == sensors_sample_count(sensors)
            + lights_sample_count(lights),
{
    let sm = sensors.map_values(|s: Sensor| spec_sensor_samples(s));
    let lm = lights.map_values(|l: Light| spec_light_samples(l));
    let sf = sm.flatten();
    let lf = lm.flatten();
    let c = spec_collected_samples(sensors, lights);
    assert(c == sf + lf);
    lemma_flatten_members(sm);
    lemma_flatten_members(lm);
    lemma_sensors_flatten_len(sensors);
    lemma_lights_flatten_len(lights);
    assert forall|j: int, k: int|
        0 <= j < sensors.len() && 0 <= k < spec_sensor_samples(sensors[j]).len() implies c.contains(
        #[trigger] spec_sensor_samples(sensors[j])[k],
    ) by {
        assert(sm[j] == spec_sensor_samples(sensors[j]));
        assert(sf.contains(sm[j][k]));
        let i = choose|i: int| 0 <= i < sf.len() && sf[i] == sm[j][k];
        assert(c[i] == sf[i]);
    }
    assert forall|j: int, k: int|
        0 <= j < lights.len() && 0 <= k < spec_light_samples(lights[j]).len() implies c.contains(
        #[trigger] spec_light_samples(lights[j])[k],
    ) by {
        assert(lm[j] == spec_light_samples(lights[j]));
        assert(lf.contains(lm[j][k]));
        let i = choose|i: int| 0 <= i < lf.len() && lf[i] == lm[j][k];
        assert(c[sf.len() + i] == lf[i]);
    }
    assert forall|i: int| 0 <= i < c.len() implies is_device_sample(sensors, lights, #[trigger] c[i]) by {
        if i < sf.len() {
            assert(c[i] == sf[i]);
            assert(in_some_block(sm, sf[i]));
            let (j, k) = choose|j: int, k: int|
                0 <= j < sm.len() && 0 <= k < sm[j].len() && #[trigger] sm[j][k] == sf[i];
            assert(sm[j] == spec_sensor_samples(sensors[j]));
            assert(c[i] == spec_sensor_samples(sensors[j])[k]);
        } else {
            assert(c[i] == lf[i - sf.len()]);
            assert(in_some_block(lm, lf[i - sf.len()]));
            let (j, k) = choose|j: int, k: int|
                0 <= j < lm.len() && 0 <= k < lm[j].len() && #[trigger] lm[j][k] == lf[i - sf.len()];
            assert(lm[j] == spec_light_samples(lights[j]));
            assert(c[i] == spec_light_samples(lights[j])[k]);
        }
    }
    assert forall|i: int| 0 <= i < sf.len() implies (#[trigger] sf[i]).metric is Sensor by {
        assert(in_some_block(sm, sf[i]));
        let (j, k) = choose|j: int, k: int|
            0 <= j < sm.len() && 0 <= k < sm[j].len() && #[trigger] sm[j][k] == sf[i];
        lemma_sensor_samples_for(sensors[j], spec_sensor_order());
        assert(sm[j] == spec_sensor_samples(sensors[j]));
        assert(spec_sensor_samples(sensors[j])[k].metric is Sensor);
    }
    assert forall|i: int| 0 <= i < lf.len() implies (#[trigger] lf[i]).metric is Light by {
        assert(in_some_block(lm, lf[i]));
        let (j, k) = choose|j: int, k: int|
            0 <= j < lm.len() && 0 <= k < lm[j].len() && #[trigger] lm[j][k] == lf[i];
        lemma_light_samples_for(lights[j], spec_light_order());
        assert(lm[j] == spec_light_samples(lights[j]));
        assert(spec_light_samples(lights[j])[k].metric is Light);
    }
    assert forall|i: int, j: int| 0 <= i < j < c.len() implies !((#[trigger] c[i]).metric is Light && (
    #[trigger] c[j]).metric is Sensor) by {
        if i < sf.len() {
            assert(c[i] == sf[i]);
        } else {
            assert(c[i] == lf[i - sf.len()]);
            assert(c[j] == lf[j - sf.len()]);
        }
    }
}

} // verus!
