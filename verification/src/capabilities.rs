//! The capabilities of a display: which commands, features and feature values it
//! supports, with their names.
use crate::ddcutil::{DisplayHandle, Error, ErrorModel, Result};
use crate::device::{
    answers, DdcReply, DdcRequest, ParsedCapabilities, RawFeature, RawMetadata, RawValue,
};
use crate::text::{c_ptr_to_string, c_text, hex, hex_text, opt_view, strict_text, utf8_lossy};
use vstd::pervasive::unreached;
use vstd::prelude::*;
use vstd::string::*;
use vstd::utf8::{decode_utf8, valid_utf8};

verus! {

/// A value that a display allows for a feature.
#[derive(Debug, Clone)]
pub struct ValueData {
    pub code: u8,
    pub name: String,
}

/// A feature that a display supports.
#[derive(Debug, Clone)]
pub struct FeatureData {
    pub code: u8,
    pub name: String,
    pub description: String,
    pub values: Vec<ValueData>,
}

/// A command that a display supports.
#[derive(Debug, Clone)]
pub struct CommandData {
    pub code: u8,
    pub description: String,
}

/// What a display supports.
#[derive(Debug, Clone)]
pub struct CapabilitiesData {
    pub model_name: String,
    pub mccs_major: u8,
    pub mccs_minor: u8,
    pub commands: Vec<CommandData>,
    pub features: Vec<FeatureData>,
}

/// What is said of a feature value.
pub struct ValueModel {
    pub code: u8,
    pub name: Seq<char>,
}

/// What is said of a feature.
#[verifier::ext_equal]
pub struct FeatureModel {
    pub code: u8,
    pub name: Seq<char>,
    pub description: Seq<char>,
    pub values: Seq<ValueModel>,
}

/// What is said of a command.
pub struct CommandModel {
    pub code: u8,
    pub description: Seq<char>,
}

/// What is said of a display's capabilities.
#[verifier::ext_equal]
pub struct CapabilitiesModel {
    pub model_name: Seq<char>,
    pub mccs_major: u8,
    pub mccs_minor: u8,
    pub commands: Seq<CommandModel>,
    pub features: Seq<FeatureModel>,
}

impl View for ValueData {
    type V = ValueModel;

    open spec fn view(&self) -> ValueModel {
        ValueModel { code: self.code, name: self.name@ }
    }
}

impl View for FeatureData {
    type V = FeatureModel;

    open spec fn view(&self) -> FeatureModel {
        FeatureModel {
            code: self.code,
            name: self.name@,
            description: self.description@,
            values: value_models(self.values@),
        }
    }
}

impl View for CommandData {
    type V = CommandModel;

    open spec fn view(&self) -> CommandModel {
        CommandModel { code: self.code, description: self.description@ }
    }
}

impl View for CapabilitiesData {
    type V = CapabilitiesModel;

    open spec fn view(&self) -> CapabilitiesModel {
        CapabilitiesModel {
            model_name: self.model_name@,
            mccs_major: self.mccs_major,
            mccs_minor: self.mccs_minor,
            commands: command_models(self.commands@),
            features: feature_models(self.features@),
        }
    }
}

/// What is said of each feature value.
pub open spec fn value_models(values: Seq<ValueData>) -> Seq<ValueModel> {
    values.map_values(|v: ValueData| v@)
}

/// What is said of each feature.
pub open spec fn feature_models(features: Seq<FeatureData>) -> Seq<FeatureModel> {
    features.map_values(|f: FeatureData| f@)
}

/// What is said of each command.
pub open spec fn command_models(commands: Seq<CommandData>) -> Seq<CommandModel> {
    commands.map_values(|c: CommandData| c@)
}

/// The pattern that finds the model in a capabilities string.
pub const MODEL_PATTERN: &'static str = "model\\(([^)]*)\\)";

/// `model(` stands at `p`, and the next closing bracket after it at `q`.
pub open spec fn is_model_at(text: Seq<char>, p: int, q: int) -> bool {
    &&& 0 <= p
    &&& p + 6 <= q < text.len()
    &&& text.subrange(p, p + 6) == "model("@
    &&& text[q] == ')'
    &&& forall|k: int| p + 6 <= k < q ==> text[k] != ')'
}

/// As `is_model_at`, with no other before it.
pub open spec fn is_first_model(text: Seq<char>, p: int, q: int) -> bool {
    &&& is_model_at(text, p, q)
    &&& forall|p0: int, q0: int| p0 < p ==> !is_model_at(text, p0, q0)
}

/// The model that a capabilities string names: what stands between the brackets
/// of its first `model(..)`.
pub open spec fn model_in(text: Seq<char>) -> Option<Seq<char>> {
    if exists|p: int, q: int| is_first_model(text, p, q) {
        let (p, q) = choose|p: int, q: int| is_first_model(text, p, q);
        Some(text.subrange(p + 6, q))
    } else {
        None
    }
}

/// There is one first `model(..)`, so the place where it stands tells the model.
pub proof fn first_model_is_the_model(text: Seq<char>, p: int, q: int)
    requires
        is_first_model(text, p, q),
    ensures
        model_in(text) == Some(text.subrange(p + 6, q)),
{
    let (p0, q0) = choose|p0: int, q0: int| is_first_model(text, p0, q0);
    assert(is_first_model(text, p0, q0));
    assert(p0 == p);
    if q0 < q {
        assert(text[q0] != ')');
    }
    if q < q0 {
        assert(text[q] != ')');
    }
}

/// `regex::Regex::captures`, with the pattern `model\(([^)]*)\)`, gives the
/// leftmost match, whose first group is what stands between the brackets.
#[verifier::external_body]
fn first_group(pattern: &str, input: &str) -> (res: Option<String>)
    requires
        pattern@ == MODEL_PATTERN@,
    ensures
        opt_view(res) == model_in(input@),
{
    let re = regex::Regex::new(pattern).ok()?;
    re.captures(input).and_then(|cap| cap.get(1).map(|m| m.as_str().to_owned()))
}

/// Finds the model in a capabilities string. There is none in what is no valid
/// UTF-8.
pub fn extract_model(bytes: &Vec<u8>) -> (res: Option<String>)
    ensures
        opt_view(res) == (if valid_utf8(bytes@) {
            model_in(decode_utf8(bytes@))
        } else {
            None
        }),
{
    match strict_text(bytes.as_slice()) {
        Some(input) => first_group(MODEL_PATTERN, input.as_str()),
        None => None,
    }
}

/// The name of the model in a capabilities string, or a text that stands for an
/// unknown one.
pub open spec fn model_name(bytes: Seq<u8>) -> Seq<char> {
    match model_in(decode_utf8(bytes)) {
        Some(name) if valid_utf8(bytes) => name,
        _ => "unknown model"@,
    }
}

/// The name of a feature, or its code in hexadecimal.
pub open spec fn feature_name(code: u8, name: Option<Vec<u8>>) -> Seq<char> {
    c_text(name, "0x"@ + hex(code))
}

/// Takes the name that libddcutil gave for a feature; without one it is the code
/// in hexadecimal.
pub fn get_feature_name(code: u8, name: &Option<Vec<u8>>) -> (res: String)
    ensures
        res@ == feature_name(code, *name),
{
    let fallback = "0x".to_owned().concat(hex_text(code).as_str());
    c_ptr_to_string(name, fallback.as_str())
}

/// The name that a table of value definitions gives a value; the table ends at
/// the first entry without a name.
pub open spec fn value_name(table: Seq<RawValue>, code: u8) -> Option<Seq<char>>
    decreases table.len(),
{
    if table.len() == 0 {
        None
    } else {
        match table[0].value_name {
            None => None,
            Some(name) => if table[0].value_code == code {
                Some(utf8_lossy(name@))
            } else {
                value_name(table.drop_first(), code)
            },
        }
    }
}

/// The values of a feature that the table defines, in the order in which the
/// display lists them.
pub open spec fn defined_values(codes: Seq<u8>, table: Seq<RawValue>) -> Seq<ValueModel>
    decreases codes.len(),
{
    if codes.len() == 0 {
        Seq::empty()
    } else {
        let before = defined_values(codes.drop_last(), table);
        match value_name(table, codes.last()) {
            Some(name) => before.push(ValueModel { code: codes.last(), name }),
            None => before,
        }
    }
}

/// A feature that a display lists, as the metadata describes it. Without
/// metadata it is named by its code and has no values.
pub open spec fn described_feature(raw: RawFeature, metadata: Option<RawMetadata>) -> FeatureModel {
    match metadata {
        Some(metadata) => FeatureModel {
            code: raw.feature_code,
            name: c_text(metadata.feature_name, ""@),
            description: c_text(metadata.feature_desc, ""@),
            values: defined_values(raw.values@, metadata.sl_values@),
        },
        None => FeatureModel {
            code: raw.feature_code,
            name: "VCP 0x"@ + hex(raw.feature_code),
            description: Seq::empty(),
            values: Seq::empty(),
        },
    }
}

fn find_value_name(table: &Vec<RawValue>, code: u8) -> (res: Option<String>)
    ensures
        opt_view(res) == value_name(table@, code),
{
    assert(table@.skip(0) =~= table@);
    for i in 0..table.len()
        invariant
            value_name(table@, code) == value_name(table@.skip(i as int), code),
    {
        assert(table@.skip(i as int)[0] == table@[i as int]);
        assert(table@.skip(i as int).drop_first() =~= table@.skip(i + 1));
        match &table[i].value_name {
            None => return None,
            Some(_) => {
                if table[i].value_code == code {
                    return Some(c_ptr_to_string(&table[i].value_name, ""));
                }
            },
        }
    }
    None
}

/// Describes a feature that a display lists.
pub fn describe_feature(raw: &RawFeature, metadata: &Option<RawMetadata>) -> (res: FeatureData)
    ensures
        res@ == described_feature(*raw, *metadata),
{
    match metadata {
        None => FeatureData {
            code: raw.feature_code,
            name: "VCP 0x".to_owned().concat(hex_text(raw.feature_code).as_str()),
            description: String::new(),
            values: Vec::new(),
        },
        Some(metadata) => {
            let mut values: Vec<ValueData> = Vec::with_capacity(raw.values.len());
            for i in 0..raw.values.len()
                invariant
                    value_models(values@) =~= defined_values(
                        raw.values@.take(i as int),
                        metadata.sl_values@,
                    ),
            {
                let code: u8 = raw.values[i];
                assert(raw.values@.take(i + 1).drop_last() =~= raw.values@.take(i as int));
                match find_value_name(&metadata.sl_values, code) {
                    Some(name) => values.push(ValueData { code, name }),
                    None => {},
                }
            }
            assert(raw.values@.take(raw.values@.len() as int) =~= raw.values@);
            FeatureData {
                code: raw.feature_code,
                name: c_ptr_to_string(&metadata.feature_name, ""),
                description: c_ptr_to_string(&metadata.feature_desc, ""),
                values,
            }
        },
    }
}

/// The gathering of a display's capabilities: the capabilities string, its parts,
/// the name of each command and the metadata of each feature.
pub enum CapabilitiesReader {
    Text { handle: DisplayHandle },
    Parsing { handle: DisplayHandle, model_name: String },
    Commands {
        handle: DisplayHandle,
        model_name: String,
        parsed: ParsedCapabilities,
        commands: Vec<CommandData>,
    },
    Features {
        handle: DisplayHandle,
        model_name: String,
        parsed: ParsedCapabilities,
        commands: Vec<CommandData>,
        features: Vec<FeatureData>,
    },
}

/// What is gathered so far.
pub enum CapabilitiesReaderModel {
    Text { handle: DisplayHandle },
    Parsing { handle: DisplayHandle, model_name: Seq<char> },
    Commands {
        handle: DisplayHandle,
        model_name: Seq<char>,
        parsed: ParsedCapabilities,
        commands: Seq<CommandModel>,
    },
    Features {
        handle: DisplayHandle,
        model_name: Seq<char>,
        parsed: ParsedCapabilities,
        commands: Seq<CommandModel>,
        features: Seq<FeatureModel>,
    },
}

impl View for CapabilitiesReader {
    type V = CapabilitiesReaderModel;

    open spec fn view(&self) -> CapabilitiesReaderModel {
        match *self {
            CapabilitiesReader::Text { handle } => CapabilitiesReaderModel::Text { handle },
            CapabilitiesReader::Parsing { handle, model_name } => CapabilitiesReaderModel::Parsing {
                handle,
                model_name: model_name@,
            },
            CapabilitiesReader::Commands { handle, model_name, parsed, commands } =>
                CapabilitiesReaderModel::Commands {
                handle,
                model_name: model_name@,
                parsed,
                commands: command_models(commands@),
            },
            CapabilitiesReader::Features { handle, model_name, parsed, commands, features } =>
                CapabilitiesReaderModel::Features {
                handle,
                model_name: model_name@,
                parsed,
                commands: command_models(commands@),
                features: feature_models(features@),
            },
        }
    }
}

/// How far the gathering has come.
pub enum CapabilitiesProgress {
    Ask { reader: CapabilitiesReader, request: DdcRequest },
    Done { result: Result<CapabilitiesData> },
}

/// What a step of the gathering leads to.
pub enum CapabilitiesProgressModel {
    Ask { reader: CapabilitiesReaderModel, request: DdcRequest },
    Done { result: std::result::Result<CapabilitiesModel, ErrorModel> },
}

impl View for CapabilitiesProgress {
    type V = CapabilitiesProgressModel;

    open spec fn view(&self) -> CapabilitiesProgressModel {
        match *self {
            CapabilitiesProgress::Ask { reader, request } => CapabilitiesProgressModel::Ask {
                reader: reader@,
                request,
            },
            CapabilitiesProgress::Done { result } => CapabilitiesProgressModel::Done {
                result: match result {
                    Ok(data) => Ok(data@),
                    Err(error) => Err(error@),
                },
            },
        }
    }
}

impl CapabilitiesReaderModel {
    /// What was gathered is about the first commands and features of the
    /// capabilities string, and something is still missing.
    pub open spec fn is_valid(self) -> bool {
        match self {
            CapabilitiesReaderModel::Commands { parsed, commands, .. } => {
                &&& commands.len() < parsed.cmd_codes@.len()
                &&& are_commands_of(commands, parsed)
            },
            CapabilitiesReaderModel::Features { parsed, commands, features, .. } => {
                &&& commands.len() == parsed.cmd_codes@.len()
                &&& features.len() < parsed.vcp_codes@.len()
                &&& are_commands_of(commands, parsed)
                &&& are_features_of(features, parsed)
            },
            _ => true,
        }
    }

    /// The reply is one that this stage waits for.
    pub open spec fn accepts(self, reply: DdcReply) -> bool {
        match self {
            CapabilitiesReaderModel::Text { .. } => reply is Text,
            CapabilitiesReaderModel::Parsing { .. } => reply is Capabilities,
            CapabilitiesReaderModel::Commands { .. } => reply is Name,
            CapabilitiesReaderModel::Features { .. } => reply is Metadata,
        }
    }

    /// How many kinds of request may still be needed.
    pub open spec fn stage(self) -> nat {
        match self {
            CapabilitiesReaderModel::Text { .. } => 4,
            CapabilitiesReaderModel::Parsing { .. } => 3,
            CapabilitiesReaderModel::Commands { .. } => 2,
            CapabilitiesReaderModel::Features { .. } => 1,
        }
    }

    /// How many requests of the present kind are still needed.
    pub open spec fn remaining(self) -> int {
        match self {
            CapabilitiesReaderModel::Commands { parsed, commands, .. } => parsed.cmd_codes@.len()
                - commands.len(),
            CapabilitiesReaderModel::Features { parsed, features, .. } => parsed.vcp_codes@.len()
                - features.len(),
            _ => 0,
        }
    }

    /// What comes after a reply.
    pub open spec fn next(self, reply: DdcReply) -> CapabilitiesProgressModel {
        match (self, reply) {
            (
                CapabilitiesReaderModel::Text { handle },
                DdcReply::Text { status, text },
            ) => if status != 0 {
                CapabilitiesProgressModel::Done { result: Err(ErrorModel::Status(status)) }
            } else {
                match text {
                    Some(bytes) => CapabilitiesProgressModel::Ask {
                        reader: CapabilitiesReaderModel::Parsing {
                            handle,
                            model_name: model_name(bytes@),
                        },
                        request: DdcRequest::ParseCapabilities { text: bytes },
                    },
                    None => CapabilitiesProgressModel::Done {
                        result: Err(ErrorModel::MissingCapabilities),
                    },
                }
            },
            (
                CapabilitiesReaderModel::Parsing { handle, model_name },
                DdcReply::Capabilities { status, parsed },
            ) => if status != 0 {
                CapabilitiesProgressModel::Done { result: Err(ErrorModel::Status(status)) }
            } else {
                match parsed {
                    Some(parsed) => after_commands(handle, model_name, parsed, Seq::empty()),
                    None => CapabilitiesProgressModel::Done {
                        result: Err(ErrorModel::MissingCapabilities),
                    },
                }
            },
            (
                CapabilitiesReaderModel::Commands { handle, model_name, parsed, commands },
                DdcReply::Name { name },
            ) => {
                let code = parsed.cmd_codes@[commands.len() as int];
                let command = CommandModel { code, description: feature_name(code, name) };
                after_commands(handle, model_name, parsed, commands.push(command))
            },
            (
                CapabilitiesReaderModel::Features { handle, model_name, parsed, commands, features },
                DdcReply::Metadata { metadata, .. },
            ) => {
                let raw = parsed.vcp_codes@[features.len() as int];
                let feature = described_feature(raw, metadata);
                after_features(handle, model_name, parsed, commands, features.push(feature))
            },
            _ => arbitrary(),
        }
    }
}

/// The commands are the first ones of the capabilities string.
pub open spec fn are_commands_of(commands: Seq<CommandModel>, parsed: ParsedCapabilities) -> bool {
    &&& commands.len() <= parsed.cmd_codes@.len()
    &&& forall|i: int|
        0 <= i < commands.len() ==> (#[trigger] commands[i]).code == parsed.cmd_codes@[i]
}

/// The features are the first ones of the capabilities string.
pub open spec fn are_features_of(features: Seq<FeatureModel>, parsed: ParsedCapabilities) -> bool {
    &&& features.len() <= parsed.vcp_codes@.len()
    &&& forall|i: int|
        0 <= i < features.len() ==> (#[trigger] features[i]).code
            == parsed.vcp_codes@[i].feature_code
}

/// What follows once some commands are named: the next one, or the features.
pub open spec fn after_commands(
    handle: DisplayHandle,
    model_name: Seq<char>,
    parsed: ParsedCapabilities,
    commands: Seq<CommandModel>,
) -> CapabilitiesProgressModel {
    if commands.len() < parsed.cmd_codes@.len() {
        CapabilitiesProgressModel::Ask {
            reader: CapabilitiesReaderModel::Commands { handle, model_name, parsed, commands },
            request: DdcRequest::FeatureName { code: parsed.cmd_codes@[commands.len() as int] },
        }
    } else {
        after_features(handle, model_name, parsed, commands, Seq::empty())
    }
}

/// What follows once some features are described: the next one, or the result.
pub open spec fn after_features(
    handle: DisplayHandle,
    model_name: Seq<char>,
    parsed: ParsedCapabilities,
    commands: Seq<CommandModel>,
    features: Seq<FeatureModel>,
) -> CapabilitiesProgressModel {
    if features.len() < parsed.vcp_codes@.len() {
        CapabilitiesProgressModel::Ask {
            reader: CapabilitiesReaderModel::Features {
                handle,
                model_name,
                parsed,
                commands,
                features,
            },
            request: DdcRequest::FeatureMetadata {
                handle,
                code: parsed.vcp_codes@[features.len() as int].feature_code,
            },
        }
    } else {
        CapabilitiesProgressModel::Done {
            result: Ok(
                CapabilitiesModel {
                    model_name,
                    mccs_major: parsed.major,
                    mccs_minor: parsed.minor,
                    commands,
                    features,
                },
            ),
        }
    }
}

fn proceed_with_features(
    handle: DisplayHandle,
    model_name: String,
    parsed: ParsedCapabilities,
    commands: Vec<CommandData>,
    features: Vec<FeatureData>,
) -> (res: CapabilitiesProgress)
    ensures
        res@ == after_features(
            handle,
            model_name@,
            parsed,
            command_models(commands@),
            feature_models(features@),
        ),
{
    if features.len() < parsed.vcp_codes.len() {
        let code: u8 = parsed.vcp_codes[features.len()].feature_code;
        CapabilitiesProgress::Ask {
            reader: CapabilitiesReader::Features { handle, model_name, parsed, commands, features },
            request: DdcRequest::FeatureMetadata { handle, code },
        }
    } else {
        let data = CapabilitiesData {
            model_name,
            mccs_major: parsed.major,
            mccs_minor: parsed.minor,
            commands,
            features,
        };
        CapabilitiesProgress::Done { result: Ok(data) }
    }
}

fn proceed_with_commands(
    handle: DisplayHandle,
    model_name: String,
    parsed: ParsedCapabilities,
    commands: Vec<CommandData>,
) -> (res: CapabilitiesProgress)
    ensures
        res@ == after_commands(handle, model_name@, parsed, command_models(commands@)),
{
    if commands.len() < parsed.cmd_codes.len() {
        let code: u8 = parsed.cmd_codes[commands.len()];
        CapabilitiesProgress::Ask {
            reader: CapabilitiesReader::Commands { handle, model_name, parsed, commands },
            request: DdcRequest::FeatureName { code },
        }
    } else {
        let features: Vec<FeatureData> = Vec::new();
        assert(feature_models(features@) =~= Seq::empty());
        proceed_with_features(handle, model_name, parsed, commands, features)
    }
}

impl CapabilitiesReader {
    /// Begins to gather the capabilities of an open display.
    pub fn start(handle: DisplayHandle) -> (res: (CapabilitiesReader, DdcRequest))
        ensures
            res.0@ == (CapabilitiesReaderModel::Text { handle }),
            res.1 == (DdcRequest::ReadCapabilities { handle }),
    {
        (CapabilitiesReader::Text { handle }, DdcRequest::ReadCapabilities { handle })
    }
}

/// Takes a reply of libddcutil on the capabilities of a display.
pub fn get_capabilities_data(reader: CapabilitiesReader, reply: DdcReply) -> (res:
    CapabilitiesProgress)
    requires
        reader@.is_valid(),
        reader@.accepts(reply),
    ensures
        res@ == reader@.next(reply),
{
    match (reader, reply) {
        (CapabilitiesReader::Text { handle }, DdcReply::Text { status, text }) => {
            if status != 0 {
                return CapabilitiesProgress::Done { result: Err(Error::Status(status)) };
            }
            match text {
                Some(bytes) => {
                    let model_name = match extract_model(&bytes) {
                        Some(name) => name,
                        None => "unknown model".to_owned(),
                    };
                    CapabilitiesProgress::Ask {
                        reader: CapabilitiesReader::Parsing { handle, model_name },
                        request: DdcRequest::ParseCapabilities { text: bytes },
                    }
                },
                None => CapabilitiesProgress::Done { result: Err(Error::MissingCapabilities) },
            }
        },
        (
            CapabilitiesReader::Parsing { handle, model_name },
            DdcReply::Capabilities { status, parsed },
        ) => {
            if status != 0 {
                return CapabilitiesProgress::Done { result: Err(Error::Status(status)) };
            }
            match parsed {
                Some(parsed) => {
                    let commands: Vec<CommandData> = Vec::new();
                    assert(command_models(commands@) =~= Seq::empty());
                    proceed_with_commands(handle, model_name, parsed, commands)
                },
                None => CapabilitiesProgress::Done { result: Err(Error::MissingCapabilities) },
            }
        },
        (
            CapabilitiesReader::Commands { handle, model_name, parsed, commands },
            DdcReply::Name { name },
        ) => {
            let mut commands = commands;
            let ghost before = commands@;
            let code: u8 = parsed.cmd_codes[commands.len()];
            commands.push(CommandData { code, description: get_feature_name(code, &name) });
            assert(command_models(commands@) =~= command_models(before).push(
                commands@.last()@,
            ));
            proceed_with_commands(handle, model_name, parsed, commands)
        },
        (
            CapabilitiesReader::Features { handle, model_name, parsed, commands, features },
            DdcReply::Metadata { metadata, .. },
        ) => {
            let mut features = features;
            let ghost before = features@;
            let feature = describe_feature(&parsed.vcp_codes[features.len()], &metadata);
            features.push(feature);
            assert(feature_models(features@) =~= feature_models(before).push(
                features@.last()@,
            ));
            proceed_with_features(handle, model_name, parsed, commands, features)
        },
        _ => unreached(),
    }
}

/// Each step of the gathering keeps it valid, brings it nearer to its end, and
/// waits for the reply that its request calls for. At the end every command and
/// every feature of the capabilities string is described, in its order.
pub proof fn gathering_covers_the_capabilities(reader: CapabilitiesReaderModel, reply: DdcReply)
    requires
        reader.is_valid(),
        reader.accepts(reply),
    ensures
        match reader.next(reply) {
            CapabilitiesProgressModel::Ask { reader: after, request } => {
                &&& after.is_valid()
                &&& after.stage() < reader.stage() || (after.stage() == reader.stage()
                    && 0 <= after.remaining() < reader.remaining())
                &&& forall|r: DdcReply| #[trigger] answers(request, r) ==> after.accepts(r)
            },
            CapabilitiesProgressModel::Done { result } => result matches Ok(data) ==> {
                let parsed = match (reader, reply) {
                    (
                        CapabilitiesReaderModel::Parsing { .. },
                        DdcReply::Capabilities { parsed, .. },
                    ) => parsed->0,
                    (CapabilitiesReaderModel::Commands { parsed, .. }, _) => parsed,
                    (CapabilitiesReaderModel::Features { parsed, .. }, _) => parsed,
                    _ => arbitrary(),
                };
                &&& data.mccs_major == parsed.major
                &&& data.mccs_minor == parsed.minor
                &&& data.commands.len() == parsed.cmd_codes@.len()
                &&& are_commands_of(data.commands, parsed)
                &&& data.features.len() == parsed.vcp_codes@.len()
                &&& are_features_of(data.features, parsed)
            },
        },
{
}

} // verus!
