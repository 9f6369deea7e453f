use vstd::prelude::*;

verus! {

/// A field of the scenario form.
#[derive(Debug, Clone, Copy, PartialEq, Eq)]
pub enum ConfigField {
    Taps,
    RangeBins,
    DopplerBins,
    Frequency,
    Noise,
    Seed,
    Description,
    ScenarioName,
    PlatformType,
    PlatformVelocity,
    Altitude,
    AreaWidth,
    AreaHeight,
    ClutterLevel,
    SnrTarget,
    InterferenceLevel,
    TargetMotion,
}

/// The scenario form of the visualizer: every field as the text typed in.
#[derive(Debug, Clone)]
pub struct ConfigForm {
    pub taps: String,
    pub range_bins: String,
    pub doppler_bins: String,
    pub frequency: String,
    pub noise: String,
    pub seed: String,
    pub description: String,
    pub scenario_name: String,
    pub platform_type: String,
    pub platform_velocity: String,
    pub altitude: String,
    pub area_width: String,
    pub area_height: String,
    pub clutter_level: String,
    pub snr_target: String,
    pub interference_level: String,
    pub target_motion: String,
}

impl ConfigForm {
    /// The text held by `field`.
    pub open spec fn field_text(&self, field: ConfigField) -> Seq<char> {
        match field {
            ConfigField::Taps => self.taps@,
            ConfigField::RangeBins => self.range_bins@,
            ConfigField::DopplerBins => self.doppler_bins@,
            ConfigField::Frequency => self.frequency@,
            ConfigField::Noise => self.noise@,
            ConfigField::Seed => self.seed@,
            ConfigField::Description => self.description@,
            ConfigField::ScenarioName => self.scenario_name@,
            ConfigField::PlatformType => self.platform_type@,
            ConfigField::PlatformVelocity => self.platform_velocity@,
            ConfigField::Altitude => self.altitude@,
            ConfigField::AreaWidth => self.area_width@,
            ConfigField::AreaHeight => self.area_height@,
            ConfigField::ClutterLevel => self.clutter_level@,
            ConfigField::SnrTarget => self.snr_target@,
            ConfigField::InterferenceLevel => self.interference_level@,
            ConfigField::TargetMotion => self.target_motion@,
        }
    }

    /// The form as first shown: a ten-by-ten kilometre airborne scenario.
    pub fn default() -> (r: Self)
        ensures
            r.taps@ == "4"@,
            r.range_bins@ == "2048"@,
            r.doppler_bins@ == "256"@,
            r.frequency@ == "1050000000"@,
            r.noise@ == "0.07"@,
            r.seed@ == "312"@,
            r.description@ == "Rust visualizer scenario"@,
            r.scenario_name@ == "Airborne sweep"@,
            r.platform_type@ == "Airborne ISR"@,
            r.platform_velocity@ == "750"@,
            r.altitude@ == "8200"@,
            r.area_width@ == "10"@,
            r.area_height@ == "10"@,
            r.clutter_level@ == "0.45"@,
            r.snr_target@ == "18"@,
            r.interference_level@ == "-10"@,
            r.target_motion@ == "Cruise, gentle zig-zag"@,
    {
        ConfigForm {
            taps: "4".to_owned(),
            range_bins: "2048".to_owned(),
            doppler_bins: "256".to_owned(),
            frequency: "1050000000".to_owned(),
            noise: "0.07".to_owned(),
            seed: "312".to_owned(),
            description: "Rust visualizer scenario".to_owned(),
            scenario_name: "Airborne sweep".to_owned(),
            platform_type: "Airborne ISR".to_owned(),
            platform_velocity: "750".to_owned(),
            altitude: "8200".to_owned(),
            area_width: "10".to_owned(),
            area_height: "10".to_owned(),
            clutter_level: "0.45".to_owned(),
            snr_target: "18".to_owned(),
            interference_level: "-10".to_owned(),
            target_motion: "Cruise, gentle zig-zag".to_owned(),
        }
    }

    /// Replaces the text of one field.
    pub fn update_field(&mut self, field: ConfigField, value: String)
        ensures
            final(self).field_text(field) == value@,
            forall|other: ConfigField|
                other != field ==> #[trigger] final(self).field_text(other) == old(self).field_text(other),
    {
        match field {
            ConfigField::Taps => self.taps = value,
            ConfigField::RangeBins => self.range_bins = value,
            ConfigField::DopplerBins => self.doppler_bins = value,
            ConfigField::Frequency => self.frequency = value,
            ConfigField::Noise => self.noise = value,
            ConfigField::Seed => self.seed = value,
            ConfigField::Description => self.description = value,
            ConfigField::ScenarioName => self.scenario_name = value,
            ConfigField::PlatformType => self.platform_type = value,
            ConfigField::PlatformVelocity => self.platform_velocity = value,
            ConfigField::Altitude => self.altitude = value,
            ConfigField::AreaWidth => self.area_width = value,
            ConfigField::AreaHeight => self.area_height = value,
            ConfigField::ClutterLevel => self.clutter_level = value,
            ConfigField::SnrTarget => self.snr_target = value,
            ConfigField::InterferenceLevel => self.interference_level = value,
            ConfigField::TargetMotion => self.target_motion = value,
        }
    }
}

} // verus!
