//! What the methods of the varlink interface take and reply.
use crate::capabilities::{
    CapabilitiesData, CapabilitiesModel, CommandData, CommandModel, FeatureData, FeatureModel,
    ValueData, ValueModel,
};
use crate::ddcutil::{models, DisplayInfo, DisplayModel, Error, ErrorModel};
use crate::edid::{base64_text, encode_base64};
use crate::text::{opt_view, upper_hex, upper_hex_is_injective, upper_hex_text};
use crate::textmap::TextMap;
use vstd::prelude::*;
use vstd::string::*;

verus! {

/// The version of the varlink interface.
pub const DDCUTIL_VARLINK_VERSION: &'static str = "1.0.0";

/// Options of a call.
#[derive(Clone, Copy, Debug)]
pub struct CallOptions {
    pub allow_edid_prefix: Option<bool>,
    pub skip_verify: Option<bool>,
}

/// A prefix of an EDID will do if the options say so.
pub open spec fn allows_prefix(options: Option<CallOptions>) -> bool {
    options matches Some(o) && o.allow_edid_prefix == Some(true)
}

/// Tells whether a prefix of an EDID will do to name a display.
pub fn is_edid_prefix_allowed(options: &Option<CallOptions>) -> (res: bool)
    ensures
        res == allows_prefix(*options),
{
    match options {
        Some(o) => o.allow_edid_prefix.unwrap_or(false),
        None => false,
    }
}

/// What is written is verified unless the options say otherwise.
pub open spec fn verifies(options: Option<CallOptions>) -> bool {
    !(options matches Some(o) && o.skip_verify == Some(true))
}

/// Tells whether a value that is written is to be verified.
pub fn is_setvcp_verifying(options: &Option<CallOptions>) -> (res: bool)
    ensures
        res == verifies(*options),
{
    match options {
        Some(o) => !o.skip_verify.unwrap_or(false),
        None => true,
    }
}

/// A display, as clients see it.
#[derive(Debug)]
pub struct DetectEntry {
    pub display_ref: i64,
    pub display_number: i64,
    pub usb_bus: i64,
    pub usb_device: i64,
    pub mfg_id: String,
    pub model_name: String,
    pub serial_number: String,
    pub product_code: i64,
    pub edid_base64: String,
    pub edid_serial_number: String,
}

/// What clients are told of a display.
pub struct DetectModel {
    pub display_ref: i64,
    pub display_number: i64,
    pub usb_bus: i64,
    pub usb_device: i64,
    pub mfg_id: Seq<char>,
    pub model_name: Seq<char>,
    pub serial_number: Seq<char>,
    pub product_code: i64,
    pub edid_base64: Seq<char>,
    pub edid_serial_number: Seq<char>,
}

impl View for DetectEntry {
    type V = DetectModel;

    open spec fn view(&self) -> DetectModel {
        DetectModel {
            display_ref: self.display_ref,
            display_number: self.display_number,
            usb_bus: self.usb_bus,
            usb_device: self.usb_device,
            mfg_id: self.mfg_id@,
            model_name: self.model_name@,
            serial_number: self.serial_number@,
            product_code: self.product_code,
            edid_base64: self.edid_base64@,
            edid_serial_number: self.edid_serial_number@,
        }
    }
}

/// What clients are told of a display that the service knows.
pub open spec fn detect_model(info: DisplayModel) -> DetectModel {
    DetectModel {
        display_ref: info.display_ref as i64,
        display_number: info.display_number as i64,
        usb_bus: info.usb_bus as i64,
        usb_device: info.usb_device as i64,
        mfg_id: info.manufacturer_id,
        model_name: info.model_name,
        serial_number: info.serial_number,
        product_code: info.product_code as i64,
        edid_base64: base64_text(info.edid_bytes@),
        edid_serial_number: info.edid_serial_number,
    }
}

/// What each entry tells clients.
pub open spec fn detect_models(entries: Seq<DetectEntry>) -> Seq<DetectModel> {
    entries.map_values(|e: DetectEntry| e@)
}

/// What clients are told of the displays that the service knows.
pub open spec fn detected(infos: Seq<DisplayModel>) -> Seq<DetectModel> {
    infos.map_values(|info: DisplayModel| detect_model(info))
}

impl DetectEntry {
    /// Tells clients of a display.
    pub fn from_info(info: &DisplayInfo) -> (res: DetectEntry)
        ensures
            res@ == detect_model(info@),
    {
        DetectEntry {
            display_ref: info.display_ref as i64,
            display_number: info.display_number as i64,
            usb_bus: info.usb_bus as i64,
            usb_device: info.usb_device as i64,
            mfg_id: info.manufacturer_id.clone(),
            model_name: info.model_name.clone(),
            serial_number: info.serial_number.clone(),
            product_code: info.product_code as i64,
            edid_base64: encode_base64(&info.edid_bytes),
            edid_serial_number: info.edid_serial_number.clone(),
        }
    }
}

/// Tells clients of displays, in their order.
pub fn detect_entries(infos: &Vec<DisplayInfo>) -> (res: Vec<DetectEntry>)
    ensures
        detect_models(res@) == detected(models(infos@)),
{
    let mut res: Vec<DetectEntry> = Vec::with_capacity(infos.len());
    for i in 0..infos.len()
        invariant
            res@.len() == i,
            forall|j: int| 0 <= j < i ==> (#[trigger] res@[j])@ == detect_model(infos@[j]@),
    {
        res.push(DetectEntry::from_info(&infos[i]));
    }
    assert(detect_models(res@) =~= detected(models(infos@)));
    res
}

/// The value of a feature, as clients see it.
#[derive(Debug)]
pub struct VcpValue {
    pub vcp_code: i64,
    pub current: i64,
    pub maximum: i64,
    pub formatted: String,
}

/// What clients are told of the value of a feature.
pub struct VcpValueModel {
    pub vcp_code: i64,
    pub current: i64,
    pub maximum: i64,
    pub formatted: Seq<char>,
}

impl View for VcpValue {
    type V = VcpValueModel;

    open spec fn view(&self) -> VcpValueModel {
        VcpValueModel {
            vcp_code: self.vcp_code,
            current: self.current,
            maximum: self.maximum,
            formatted: self.formatted@,
        }
    }
}

/// What clients are told of the values of features.
pub open spec fn vcp_value_models(values: Seq<VcpValue>) -> Seq<VcpValueModel> {
    values.map_values(|v: VcpValue| v@)
}

/// A feature that a display supports, as clients see it. The values that it may
/// take are keyed by their codes.
#[derive(Debug)]
pub struct CapabilitiesFeature {
    pub feature_name: String,
    pub feature_description: String,
    pub values: TextMap<String>,
}

/// What clients are told of a feature that a display supports.
#[verifier::ext_equal]
pub struct CapabilitiesFeatureModel {
    pub feature_name: Seq<char>,
    pub feature_description: Seq<char>,
    pub values: Map<Seq<char>, Seq<char>>,
}

/// What the texts of a map say.
pub open spec fn texts(map: Map<Seq<char>, String>) -> Map<Seq<char>, Seq<char>> {
    map.map_values(|s: String| s@)
}

/// What the features of a map say.
pub open spec fn features(map: Map<Seq<char>, CapabilitiesFeature>) -> Map<
    Seq<char>,
    CapabilitiesFeatureModel,
> {
    map.map_values(|f: CapabilitiesFeature| f@)
}

impl View for CapabilitiesFeature {
    type V = CapabilitiesFeatureModel;

    open spec fn view(&self) -> CapabilitiesFeatureModel {
        CapabilitiesFeatureModel {
            feature_name: self.feature_name@,
            feature_description: self.feature_description@,
            values: texts(self.values@),
        }
    }
}

/// What a display supports, as clients see it. Commands and features are keyed by
/// their codes, in two hexadecimal digits.
#[derive(Debug)]
pub struct CapabilitiesReply {
    pub model_name: String,
    pub mccs_major: i64,
    pub mccs_minor: i64,
    pub commands: TextMap<String>,
    pub capabilities: TextMap<CapabilitiesFeature>,
}

/// What clients are told of a display's capabilities.
#[verifier::ext_equal]
pub struct CapabilitiesReplyModel {
    pub model_name: Seq<char>,
    pub mccs_major: i64,
    pub mccs_minor: i64,
    pub commands: Map<Seq<char>, Seq<char>>,
    pub capabilities: Map<Seq<char>, CapabilitiesFeatureModel>,
}

impl View for CapabilitiesReply {
    type V = CapabilitiesReplyModel;

    open spec fn view(&self) -> CapabilitiesReplyModel {
        CapabilitiesReplyModel {
            model_name: self.model_name@,
            mccs_major: self.mccs_major,
            mccs_minor: self.mccs_minor,
            commands: texts(self.commands@),
            capabilities: features(self.capabilities@),
        }
    }
}

/// Things by their codes, in two hexadecimal digits; of two with the same code the
/// later one counts.
pub open spec fn keyed_by_code<T>(things: Seq<(u8, T)>) -> Map<Seq<char>, T>
    decreases things.len(),
{
    if things.len() == 0 {
        Map::empty()
    } else {
        keyed_by_code(things.drop_last()).insert(upper_hex(things.last().0), things.last().1)
    }
}

/// Values by their codes.
pub open spec fn keyed_values(values: Seq<ValueModel>) -> Map<Seq<char>, Seq<char>> {
    keyed_by_code(values.map_values(|v: ValueModel| (v.code, v.name)))
}

/// Commands by their codes.
pub open spec fn keyed_commands(commands: Seq<CommandModel>) -> Map<Seq<char>, Seq<char>> {
    keyed_by_code(commands.map_values(|c: CommandModel| (c.code, c.description)))
}

/// What clients are told of a feature.
pub open spec fn converted_feature(feature: FeatureModel) -> CapabilitiesFeatureModel {
    CapabilitiesFeatureModel {
        feature_name: feature.name,
        feature_description: feature.description,
        values: keyed_values(feature.values),
    }
}

/// Features by their codes.
pub open spec fn keyed_features(features: Seq<FeatureModel>) -> Map<
    Seq<char>,
    CapabilitiesFeatureModel,
> {
    keyed_by_code(features.map_values(|f: FeatureModel| (f.code, converted_feature(f))))
}

/// What clients are told of the capabilities that were gathered.
pub open spec fn converted(data: CapabilitiesModel) -> CapabilitiesReplyModel {
    CapabilitiesReplyModel {
        model_name: data.model_name,
        mccs_major: data.mccs_major as i64,
        mccs_minor: data.mccs_minor as i64,
        commands: keyed_commands(data.commands),
        capabilities: keyed_features(data.features),
    }
}

fn convert_values(values: &Vec<ValueData>) -> (res: TextMap<String>)
    ensures
        texts(res@) == keyed_values(values@.map_values(|v: ValueData| v@)),
{
    let ghost models = values@.map_values(|v: ValueData| v@);
    let ghost all = models.map_values(|v: ValueModel| (v.code, v.name));
    let mut res: TextMap<String> = TextMap::new();
    assert(texts(res@) =~= Map::empty());
    for i in 0..values.len()
        invariant
                models == values@.map_values(|v: ValueData| v@),
            all == models.map_values(|v: ValueModel| (v.code, v.name)),
            texts(res@) == keyed_by_code(all.take(i as int)),
    {
        let ghost before = res@;
        let key = upper_hex_text(values[i].code);
        let name = values[i].name.clone();
        res.insert(key, name);
        proof {
            assert(all.take(i + 1).drop_last() =~= all.take(i as int));
            assert(all.take(i + 1).last() == (values@[i as int].code, values@[i as int].name@));
            assert(texts(res@) =~= texts(before).insert(key@, name@));
        }
    }
    assert(all.take(all.len() as int) =~= all);
    res
}

fn convert_commands(commands: &Vec<CommandData>) -> (res: TextMap<String>)
    ensures
        texts(res@) == keyed_commands(commands@.map_values(|c: CommandData| c@)),
{
    let ghost models = commands@.map_values(|c: CommandData| c@);
    let ghost all = models.map_values(|c: CommandModel| (c.code, c.description));
    let mut res: TextMap<String> = TextMap::new();
    assert(texts(res@) =~= Map::empty());
    for i in 0..commands.len()
        invariant
                models == commands@.map_values(|c: CommandData| c@),
            all == models.map_values(|c: CommandModel| (c.code, c.description)),
            texts(res@) == keyed_by_code(all.take(i as int)),
    {
        let ghost before = res@;
        let key = upper_hex_text(commands[i].code);
        let description = commands[i].description.clone();
        res.insert(key, description);
        proof {
            assert(all.take(i + 1).drop_last() =~= all.take(i as int));
            assert(all.take(i + 1).last() == (
                commands@[i as int].code,
                commands@[i as int].description@,
            ));
            assert(texts(res@) =~= texts(before).insert(key@, description@));
        }
    }
    assert(all.take(all.len() as int) =~= all);
    res
}

fn convert_features(data: &Vec<FeatureData>) -> (res: TextMap<CapabilitiesFeature>)
    ensures
        features(res@) == keyed_features(data@.map_values(|f: FeatureData| f@)),
{
    let ghost models = data@.map_values(|f: FeatureData| f@);
    let ghost all = models.map_values(|f: FeatureModel| (f.code, converted_feature(f)));
    let mut res: TextMap<CapabilitiesFeature> = TextMap::new();
    assert(features(res@) =~= Map::empty());
    for i in 0..data.len()
        invariant
                models == data@.map_values(|f: FeatureData| f@),
            all == models.map_values(|f: FeatureModel| (f.code, converted_feature(f))),
            features(res@) == keyed_by_code(all.take(i as int)),
    {
        let ghost before = res@;
        let key = upper_hex_text(data[i].code);
        let feature = CapabilitiesFeature {
            feature_name: data[i].name.clone(),
            feature_description: data[i].description.clone(),
            values: convert_values(&data[i].values),
        };
        res.insert(key, feature);
        proof {
            assert(all.take(i + 1).drop_last() =~= all.take(i as int));
            assert(all.take(i + 1).last() == (
                data@[i as int].code,
                converted_feature(data@[i as int]@),
            ));
            assert(feature@ == converted_feature(data@[i as int]@));
            assert(features(res@) =~= features(before).insert(key@, feature@));
        }
    }
    assert(all.take(all.len() as int) =~= all);
    res
}

/// Tells clients of the capabilities that were gathered.
pub fn convert_capabilities_data(data: CapabilitiesData) -> (res: CapabilitiesReply)
    ensures
        res@ == converted(data@),
{
    let commands = convert_commands(&data.commands);
    let capabilities = convert_features(&data.features);
    CapabilitiesReply {
        model_name: data.model_name,
        mccs_major: data.mccs_major as i64,
        mccs_minor: data.mccs_minor as i64,
        commands,
        capabilities,
    }
}

/// There is a key exactly for each code that occurs, and it leads to the last thing
/// with that code.
pub proof fn last_thing_of_a_code_counts<T>(things: Seq<(u8, T)>)
    ensures
        forall|key: Seq<char>| #[trigger]
            keyed_by_code(things).dom().contains(key) <==> exists|i: int|
                0 <= i < things.len() && upper_hex((#[trigger] things[i]).0) == key,
        forall|i: int|
            0 <= i < things.len() && (forall|j: int|
                i < j < things.len() ==> (#[trigger] things[j]).0 != things[i].0)
                ==> keyed_by_code(things)[upper_hex((#[trigger] things[i]).0)] == things[i].1,
    decreases things.len(),
{
    if things.len() > 0 {
        let init = things.drop_last();
        let last = things.last();
        let end = things.len() - 1;
        last_thing_of_a_code_counts(init);
        assert(things[end] == last);
        assert forall|key: Seq<char>| #[trigger]
            keyed_by_code(things).dom().contains(key) <==> exists|i: int|
            0 <= i < things.len() && upper_hex((#[trigger] things[i]).0) == key by {
            if key == upper_hex(last.0) {
                assert(upper_hex(things[end].0) == key);
            } else {
                assert(keyed_by_code(init).dom().contains(key) == keyed_by_code(
                    things,
                ).dom().contains(key));
                if exists|i: int|
                    0 <= i < things.len() && upper_hex((#[trigger] things[i]).0) == key {
                    let i = choose|i: int|
                        0 <= i < things.len() && upper_hex((#[trigger] things[i]).0) == key;
                    assert(init[i] == things[i]);
                }
                if keyed_by_code(init).dom().contains(key) {
                    let i = choose|i: int|
                        0 <= i < init.len() && upper_hex((#[trigger] init[i]).0) == key;
                    assert(things[i] == init[i]);
                }
            }
        }
        assert forall|i: int|
            0 <= i < things.len() && (forall|j: int|
                i < j < things.len() ==> (#[trigger] things[j]).0
                    != things[i].0) implies keyed_by_code(things)[upper_hex(
            (#[trigger] things[i]).0,
        )] == things[i].1 by {
            if i < end {
                assert(things[end].0 != things[i].0);
                if upper_hex(things[i].0) == upper_hex(last.0) {
                    upper_hex_is_injective(things[i].0, last.0);
                }
                assert(init[i] == things[i]);
                assert forall|j: int| i < j < init.len() implies (#[trigger] init[j]).0
                    != init[i].0 by {
                    assert(things[j] == init[j]);
                }
            }
        }
    }
}

/// The commands and the features that were gathered are told to clients under their
/// codes and no others are; of two with the same code the later one is told.
pub proof fn gathered_capabilities_are_told(data: CapabilitiesModel)
    ensures
        forall|key: Seq<char>| #[trigger]
            converted(data).commands.dom().contains(key) <==> exists|i: int|
                0 <= i < data.commands.len() && upper_hex((#[trigger] data.commands[i]).code) == key,
        forall|i: int|
            0 <= i < data.commands.len() && (forall|j: int|
                i < j < data.commands.len() ==> (#[trigger] data.commands[j]).code
                    != data.commands[i].code) ==> converted(data).commands[upper_hex(
                (#[trigger] data.commands[i]).code,
            )] == data.commands[i].description,
        forall|key: Seq<char>| #[trigger]
            converted(data).capabilities.dom().contains(key) <==> exists|i: int|
                0 <= i < data.features.len() && upper_hex((#[trigger] data.features[i]).code) == key,
        forall|i: int|
            0 <= i < data.features.len() && (forall|j: int|
                i < j < data.features.len() ==> (#[trigger] data.features[j]).code
                    != data.features[i].code) ==> converted(data).capabilities[upper_hex(
                (#[trigger] data.features[i]).code,
            )] == converted_feature(data.features[i]),
{
    let commands = data.commands.map_values(|c: CommandModel| (c.code, c.description));
    last_thing_of_a_code_counts(commands);
    assert forall|key: Seq<char>| #[trigger]
        converted(data).commands.dom().contains(key) <==> exists|i: int|
        0 <= i < data.commands.len() && upper_hex((#[trigger] data.commands[i]).code) == key by {
        if exists|i: int|
            0 <= i < data.commands.len() && upper_hex((#[trigger] data.commands[i]).code) == key {
            let i = choose|i: int|
                0 <= i < data.commands.len() && upper_hex((#[trigger] data.commands[i]).code) == key;
            assert(upper_hex(commands[i].0) == key);
        }
        if keyed_by_code(commands).dom().contains(key) {
            let i = choose|i: int|
                0 <= i < commands.len() && upper_hex((#[trigger] commands[i]).0) == key;
            assert(upper_hex(data.commands[i].code) == key);
        }
    }
    assert forall|i: int|
        0 <= i < data.commands.len() && (forall|j: int|
            i < j < data.commands.len() ==> (#[trigger] data.commands[j]).code
                != data.commands[i].code) implies converted(data).commands[upper_hex(
        (#[trigger] data.commands[i]).code,
    )] == data.commands[i].description by {
        assert forall|j: int| i < j < commands.len() implies (#[trigger] commands[j]).0
            != commands[i].0 by {
            assert(data.commands[j].code != data.commands[i].code);
        }
        assert(commands[i] == (data.commands[i].code, data.commands[i].description));
    }
    let features = data.features.map_values(|f: FeatureModel| (f.code, converted_feature(f)));
    last_thing_of_a_code_counts(features);
    assert forall|key: Seq<char>| #[trigger]
        converted(data).capabilities.dom().contains(key) <==> exists|i: int|
        0 <= i < data.features.len() && upper_hex((#[trigger] data.features[i]).code) == key by {
        if exists|i: int|
            0 <= i < data.features.len() && upper_hex((#[trigger] data.features[i]).code) == key {
            let i = choose|i: int|
                0 <= i < data.features.len() && upper_hex((#[trigger] data.features[i]).code) == key;
            assert(upper_hex(features[i].0) == key);
        }
        if keyed_by_code(features).dom().contains(key) {
            let i = choose|i: int|
                0 <= i < features.len() && upper_hex((#[trigger] features[i]).0) == key;
            assert(upper_hex(data.features[i].code) == key);
        }
    }
    assert forall|i: int|
        0 <= i < data.features.len() && (forall|j: int|
            i < j < data.features.len() ==> (#[trigger] data.features[j]).code
                != data.features[i].code) implies converted(data).capabilities[upper_hex(
        (#[trigger] data.features[i]).code,
    )] == converted_feature(data.features[i]) by {
        assert forall|j: int| i < j < features.len() implies (#[trigger] features[j]).0
            != features[i].0 by {
            assert(data.features[j].code != data.features[i].code);
        }
        assert(features[i] == (data.features[i].code, converted_feature(data.features[i])));
    }
}

/// The values of a feature are told to clients under their codes and no others are; of
/// two with the same code the later one is told.
pub proof fn gathered_values_are_told(feature: FeatureModel)
    ensures
        forall|key: Seq<char>| #[trigger]
            converted_feature(feature).values.dom().contains(key) <==> exists|i: int|
                0 <= i < feature.values.len() && upper_hex((#[trigger] feature.values[i]).code) == key,
        forall|i: int|
            0 <= i < feature.values.len() && (forall|j: int|
                i < j < feature.values.len() ==> (#[trigger] feature.values[j]).code
                    != feature.values[i].code) ==> converted_feature(feature).values[upper_hex(
                (#[trigger] feature.values[i]).code,
            )] == feature.values[i].name,
{
    let values = feature.values.map_values(|v: ValueModel| (v.code, v.name));
    last_thing_of_a_code_counts(values);
    assert forall|key: Seq<char>| #[trigger]
        converted_feature(feature).values.dom().contains(key) <==> exists|i: int|
        0 <= i < feature.values.len() && upper_hex((#[trigger] feature.values[i]).code) == key by {
        if exists|i: int|
            0 <= i < feature.values.len() && upper_hex((#[trigger] feature.values[i]).code) == key {
            let i = choose|i: int|
                0 <= i < feature.values.len() && upper_hex((#[trigger] feature.values[i]).code) == key;
            assert(upper_hex(values[i].0) == key);
        }
        if keyed_by_code(values).dom().contains(key) {
            let i = choose|i: int|
                0 <= i < values.len() && upper_hex((#[trigger] values[i]).0) == key;
            assert(upper_hex(feature.values[i].code) == key);
        }
    }
    assert forall|i: int|
        0 <= i < feature.values.len() && (forall|j: int|
            i < j < feature.values.len() ==> (#[trigger] feature.values[j]).code
                != feature.values[i].code) implies converted_feature(feature).values[upper_hex(
        (#[trigger] feature.values[i]).code,
    )] == feature.values[i].name by {
        assert forall|j: int| i < j < values.len() implies (#[trigger] values[j]).0
            != values[i].0 by {
            assert(feature.values[j].code != feature.values[i].code);
        }
        assert(values[i] == (feature.values[i].code, feature.values[i].name));
    }
}

/// The reply to a call that a display or libddcutil let down.
#[derive(Debug)]
pub struct DdcError {
    pub display_ref: i64,
    pub display_number: i64,
    pub edid_base64: String,
    pub vcp_code: i64,
    pub status: i64,
    pub message: String,
}

/// What the reply to a failed call says.
pub struct DdcErrorModel {
    pub display_ref: i64,
    pub display_number: i64,
    pub edid_base64: Seq<char>,
    pub vcp_code: i64,
    pub status: i64,
    pub message: Seq<char>,
}

impl View for DdcError {
    type V = DdcErrorModel;

    open spec fn view(&self) -> DdcErrorModel {
        DdcErrorModel {
            display_ref: self.display_ref,
            display_number: self.display_number,
            edid_base64: self.edid_base64@,
            vcp_code: self.vcp_code,
            status: self.status,
            message: self.message@,
        }
    }
}

/// A number that stands in a reply: -1 where there is none.
pub open spec fn or_minus_one(number: Option<i64>) -> i64 {
    match number {
        Some(n) => n,
        None => -1i64,
    }
}

/// What a failed call is replied: what it was about, the status of the error, and
/// a message. A status of libddcutil is explained; any other error speaks for
/// itself.
pub open spec fn ddc_error(
    display_ref: Option<i64>,
    display_number: Option<i64>,
    edid_base64: Option<Seq<char>>,
    vcp_code: Option<i64>,
    error: ErrorModel,
    explanation: Seq<char>,
) -> DdcErrorModel {
    DdcErrorModel {
        display_ref: or_minus_one(display_ref),
        display_number: or_minus_one(display_number),
        edid_base64: match edid_base64 {
            Some(edid) => edid,
            None => Seq::empty(),
        },
        vcp_code: or_minus_one(vcp_code),
        status: error.status_code() as i64,
        message: if error is Status {
            explanation
        } else {
            error.message()
        },
    }
}

/// Makes the reply to a failed call. `explanation` is what libddcutil says of the
/// status, where the error is one.
pub fn send_ddc_error(
    display_ref: Option<i64>,
    display_number: Option<i64>,
    edid_base64: &Option<String>,
    vcp_code: Option<i64>,
    error: &Error,
    explanation: String,
) -> (res: DdcError)
    ensures
        res@ == ddc_error(
            display_ref,
            display_number,
            opt_view(*edid_base64),
            vcp_code,
            error@,
            explanation@,
        ),
{
    let status: i64 = error.status_code();
    let message = match error {
        Error::Status(_) => explanation,
        _ => error.message(),
    };
    let edid = match edid_base64 {
        Some(edid) => edid.clone(),
        None => String::new(),
    };
    DdcError {
        display_ref: display_ref.unwrap_or(-1),
        display_number: display_number.unwrap_or(-1),
        edid_base64: edid,
        vcp_code: vcp_code.unwrap_or(-1),
        status,
        message,
    }
}

} // verus!
