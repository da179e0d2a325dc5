//! What the gathering of a display's capabilities comes to: every command, feature and
//! feature value that the display lists, with the names that libddcutil has for them.
use crate::capabilities::{
    after_commands, after_features, defined_values, described_feature, first_model_is_the_model,
    is_first_model, is_model_at, model_in, value_name, CapabilitiesModel, CapabilitiesProgressModel,
    CommandModel, FeatureModel, ValueModel,
};
use crate::courses::{
    asks, closes_and_ends, closes_and_explains, failure, first_named_is_found, goes_on, handle_of,
    names_first, opened, said, status_is_explained, Saying,
};
use crate::ddcutil::DisplayHandle;
use crate::device::{
    DdcReply, DdcRequest, ParsedCapabilities, RawDisplay, RawFeature, RawMetadata, RawValue,
};
use crate::operation::{
    OutcomeModel, ProgressModel, Purpose, ReplyModel, StageModel, StepModel, Target,
};
use crate::text::{hex, upper_hex, utf8_lossy};
use crate::varlink_impl::{
    converted, converted_feature, gathered_capabilities_are_told, gathered_values_are_told,
    CapabilitiesFeatureModel, CapabilitiesReplyModel,
};
use vstd::prelude::*;
use vstd::string::*;
use vstd::utf8::{decode_utf8, valid_utf8};

verus! {

/// The entry at this place of a table of value definitions is the one for the code: the
/// first one with the code, before the first entry without a name.
pub open spec fn defines(table: Seq<RawValue>, code: u8, k: int) -> bool {
    &&& 0 <= k < table.len()
    &&& table[k].value_code == code
    &&& forall|m: int| 0 <= m <= k ==> (#[trigger] table[m]).value_name is Some
    &&& forall|m: int| 0 <= m < k ==> (#[trigger] table[m]).value_code != code
}

/// The table has an entry for the code.
pub open spec fn is_defined(table: Seq<RawValue>, code: u8) -> bool {
    exists|k: int| #[trigger] defines(table, code, k)
}

/// The name is that of the entry for the code.
pub open spec fn is_defined_as(table: Seq<RawValue>, code: u8, name: Seq<char>) -> bool {
    exists|k: int| #[trigger]
        defines(table, code, k) && (table[k].value_name matches Some(bytes) && name == utf8_lossy(
            bytes@,
        ))
}

/// The places are in order, within a list of that length.
pub open spec fn are_places(places: Seq<int>, len: nat) -> bool {
    &&& forall|v: int| 0 <= v < places.len() ==> 0 <= #[trigger] places[v] < len
    &&& forall|v: int, w: int|
        0 <= v < w < places.len() ==> #[trigger] places[v] < #[trigger] places[w]
}

/// The value at each place of the list that the table defines, and no other, in the
/// order of the list, under the name that the table has for it.
pub open spec fn are_the_defined(
    values: Seq<ValueModel>,
    codes: Seq<u8>,
    table: Seq<RawValue>,
    places: Seq<int>,
) -> bool {
    &&& places.len() == values.len()
    &&& are_places(places, codes.len())
    &&& forall|v: int|
        0 <= v < values.len() ==> (#[trigger] values[v]).code == codes[places[v]] && is_defined_as(
            table,
            values[v].code,
            values[v].name,
        )
    &&& forall|i: int|
        0 <= i < codes.len() && is_defined(table, #[trigger] codes[i]) ==> places.contains(i)
}

/// The feature is described as libddcutil has it: by its metadata, with every value
/// that the display lists and the metadata defines; without metadata by its code alone.
pub open spec fn describes(
    feature: FeatureModel,
    raw: RawFeature,
    metadata: Option<RawMetadata>,
) -> bool {
    &&& feature.code == raw.feature_code
    &&& match metadata {
        Some(md) => {
            &&& feature.name == said(md.feature_name, ""@)
            &&& feature.description == said(md.feature_desc, ""@)
            &&& exists|places: Seq<int>| #[trigger]
                are_the_defined(feature.values, raw.values@, md.sl_values@, places)
        },
        None => {
            &&& feature.name == "VCP 0x"@ + hex(raw.feature_code)
            &&& feature.description == Seq::<char>::empty()
            &&& feature.values == Seq::<ValueModel>::empty()
        },
    }
}

proof fn name_is_of_the_first_entry(table: Seq<RawValue>, code: u8)
    ensures
        match value_name(table, code) {
            Some(name) => is_defined(table, code) && is_defined_as(table, code, name),
            None => !is_defined(table, code),
        },
    decreases table.len(),
{
    if table.len() > 0 {
        let rest = table.drop_first();
        name_is_of_the_first_entry(rest, code);
        assert forall|m: int| 0 <= m < rest.len() implies #[trigger] rest[m] == table[m + 1] by {}
        match table[0].value_name {
            None => {
                if is_defined(table, code) {
                    let k = choose|k: int| #[trigger] defines(table, code, k);
                    assert(table[0].value_name is Some);
                }
            },
            Some(bytes) => {
                if table[0].value_code == code {
                    assert(defines(table, code, 0));
                } else {
                    match value_name(rest, code) {
                        Some(name) => {
                            let k = choose|k: int| #[trigger]
                                defines(rest, code, k) && (rest[k].value_name matches Some(b)
                                    && name == utf8_lossy(b@));
                            assert forall|m: int| 0 <= m <= k + 1 implies (
                            #[trigger] table[m]).value_name is Some by {
                                if m > 0 {
                                    assert(rest[m - 1] == table[m]);
                                }
                            }
                            assert forall|m: int| 0 <= m < k + 1 implies (
                            #[trigger] table[m]).value_code != code by {
                                if m > 0 {
                                    assert(rest[m - 1] == table[m]);
                                }
                            }
                            assert(rest[k] == table[k + 1]);
                            assert(defines(table, code, k + 1));
                        },
                        None => {
                            if is_defined(table, code) {
                                let k = choose|k: int| #[trigger] defines(table, code, k);
                                assert forall|m: int| 0 <= m <= k - 1 implies (
                                #[trigger] rest[m]).value_name is Some by {
                                    assert(table[m + 1].value_name is Some);
                                }
                                assert forall|m: int| 0 <= m < k - 1 implies (
                                #[trigger] rest[m]).value_code != code by {
                                    assert(table[m + 1].value_code != code);
                                }
                                assert(rest[k - 1] == table[k]);
                                assert(defines(rest, code, k - 1));
                            }
                        },
                    }
                }
            },
        }
    }
}

proof fn values_are_the_defined(codes: Seq<u8>, table: Seq<RawValue>) -> (places: Seq<int>)
    ensures
        are_the_defined(defined_values(codes, table), codes, table, places),
    decreases codes.len(),
{
    if codes.len() == 0 {
        Seq::empty()
    } else {
        let init = codes.drop_last();
        let last = codes.last();
        let end = codes.len() - 1;
        let before = values_are_the_defined(init, table);
        let values = defined_values(codes, table);
        name_is_of_the_first_entry(table, last);
        let places = match value_name(table, last) {
            Some(_) => before.push(end),
            None => before,
        };
        assert forall|i: int|
            0 <= i < codes.len() && is_defined(table, #[trigger] codes[i]) implies places.contains(
            i,
        ) by {
            if i < end {
                assert(init[i] == codes[i]);
                assert(before.contains(i));
                let v = choose|v: int| 0 <= v < before.len() && before[v] == i;
                assert(places[v] == i);
            } else {
                assert(places[before.len() as int] == end);
            }
        }
        assert forall|v: int| 0 <= v < values.len() implies (#[trigger] values[v]).code
            == codes[places[v]] && is_defined_as(table, values[v].code, values[v].name) by {
            if v < before.len() {
                assert(values[v] == defined_values(init, table)[v]);
                assert(places[v] == before[v]);
                assert(init[before[v]] == codes[before[v]]);
            }
        }
        assert forall|v: int| 0 <= v < places.len() implies 0 <= #[trigger] places[v]
            < codes.len() by {
            if v < before.len() {
                assert(places[v] == before[v]);
            }
        }
        assert forall|v: int, w: int| 0 <= v < w < places.len() implies #[trigger] places[v]
            < #[trigger] places[w] by {
            assert(places[v] == before[v]);
            if w < before.len() {
                assert(places[w] == before[w]);
            }
        }
        places
    }
}

/// A feature is described by its metadata: a value that the display lists and that the
/// metadata names is there, once for each time it is listed, in the order of the list,
/// under its first name; no other value is.
pub proof fn feature_is_described_by_its_metadata(raw: RawFeature, metadata: Option<RawMetadata>)
    ensures
        describes(described_feature(raw, metadata), raw, metadata),
{
    if let Some(md) = metadata {
        let places = values_are_the_defined(raw.values@, md.sl_values@);
        let values = described_feature(raw, metadata).values;
        assert(are_the_defined(values, raw.values@, md.sl_values@, places));
    }
}

/// The name of a command, or its code where libddcutil has none.
pub open spec fn command_name(code: u8, name: Option<Vec<u8>>) -> Seq<char> {
    said(name, "0x"@ + hex(code))
}

/// The model that a capabilities string names.
pub open spec fn model_named(bytes: Seq<u8>) -> Seq<char> {
    if valid_utf8(bytes) {
        match model_in(decode_utf8(bytes)) {
            Some(model) => model,
            None => "unknown model"@,
        }
    } else {
        "unknown model"@
    }
}

/// The model is what stands between `model(` where that comes first with a closing
/// bracket after it, and the next closing bracket; there is none exactly where no
/// `model(` has a closing bracket after it.
pub proof fn model_stands_between_its_brackets(text: Seq<char>)
    ensures
        match model_in(text) {
            Some(model) => exists|p: int, q: int| #[trigger] encloses(text, p, q, model),
            None => forall|p: int| !#[trigger] closes(text, p),
        },
{
    if exists|p: int, q: int| is_first_model(text, p, q) {
        let (p, q) = choose|p: int, q: int| is_first_model(text, p, q);
        assert(is_model_at(text, p, q));
        if closes_earlier(text, p) {
            let r = choose|r: int| r < p && #[trigger] closes(text, r);
            let s = closing_bracket(text, r);
            assert(is_model_at(text, r, s));
        }
        first_model_is_the_model(text, p, q);
        assert(encloses(text, p, q, model_in(text)->0));
    } else {
        assert forall|p: int| !#[trigger] closes(text, p) by {
            if closes(text, p) {
                first_model_exists(text, p);
            }
        }
    }
}

/// `model(` stands here, the next closing bracket after it there, and the model between
/// the two; no earlier `model(` has a closing bracket after it.
pub open spec fn encloses(text: Seq<char>, p: int, q: int, model: Seq<char>) -> bool {
    &&& 0 <= p
    &&& p + 6 <= q < text.len()
    &&& text.subrange(p, p + 6) == "model("@
    &&& text[q] == ')'
    &&& forall|k: int| p + 6 <= k < q ==> text[k] != ')'
    &&& model == text.subrange(p + 6, q)
    &&& !closes_earlier(text, p)
}

/// `model(` stands here, with a closing bracket somewhere after it.
pub open spec fn closes(text: Seq<char>, p: int) -> bool {
    0 <= p && p + 6 <= text.len() && text.subrange(p, p + 6) == "model("@ && exists|q: int|
        p + 6 <= q < text.len() && #[trigger] text[q] == ')'
}

/// `model(` with a closing bracket after it stands before this place.
pub open spec fn closes_earlier(text: Seq<char>, p: int) -> bool {
    exists|r: int| r < p && #[trigger] closes(text, r)
}

proof fn closing_bracket(text: Seq<char>, p: int) -> (q: int)
    requires
        closes(text, p),
    ensures
        is_model_at(text, p, q),
{
    let any = choose|q: int| p + 6 <= q < text.len() && #[trigger] text[q] == ')';
    nearest_bracket(text, p + 6, any)
}

proof fn nearest_bracket(text: Seq<char>, from: int, any: int) -> (q: int)
    requires
        0 <= from <= any < text.len(),
        text[any] == ')',
    ensures
        from <= q <= any,
        text[q] == ')',
        forall|k: int| from <= k < q ==> text[k] != ')',
    decreases any - from,
{
    if text[from] == ')' {
        from
    } else {
        nearest_bracket(text, from + 1, any)
    }
}

proof fn first_model_exists(text: Seq<char>, p: int)
    requires
        closes(text, p),
    ensures
        exists|r: int, s: int| is_first_model(text, r, s),
    decreases p,
{
    if exists|r: int| r < p && #[trigger] closes(text, r) {
        let r = choose|r: int| r < p && #[trigger] closes(text, r);
        first_model_exists(text, r);
    } else {
        let q = closing_bracket(text, p);
        assert forall|p0: int, q0: int| p0 < p implies !is_model_at(text, p0, q0) by {
            if is_model_at(text, p0, q0) {
                assert(text[q0] == ')');
                assert(closes(text, p0));
            }
        }
        assert(is_first_model(text, p, q));
    }
}

/// The method after so many commands were named.
pub open spec fn after_names(
    progress: ProgressModel,
    names: Seq<Option<Vec<u8>>>,
    n: nat,
) -> ProgressModel
    decreases n,
{
    if n == 0 {
        progress
    } else {
        goes_on(after_names(progress, names, (n - 1) as nat), DdcReply::Name { name: names[n - 1] })
    }
}

/// The method after the metadata of so many features was had.
pub open spec fn after_metadata(
    progress: ProgressModel,
    metadata: Seq<(i32, Option<RawMetadata>)>,
    n: nat,
) -> ProgressModel
    decreases n,
{
    if n == 0 {
        progress
    } else {
        goes_on(
            after_metadata(progress, metadata, (n - 1) as nat),
            DdcReply::Metadata { status: metadata[n - 1].0, metadata: metadata[n - 1].1 },
        )
    }
}

spec fn within(
    purpose: Purpose,
    handle: DisplayHandle,
    progress: CapabilitiesProgressModel,
) -> ProgressModel {
    match progress {
        CapabilitiesProgressModel::Ask { reader, request } => purpose.asking(
            StageModel::Gathering { handle, reader },
            request,
        ),
        CapabilitiesProgressModel::Done { result } => purpose.closing(
            handle,
            match result {
                Ok(data) => OutcomeModel::Success {
                    reply: ReplyModel::Capabilities { capabilities: converted(data) },
                },
                Err(error) => OutcomeModel::Failure { error },
            },
        ),
    }
}

spec fn named_commands(
    parsed: ParsedCapabilities,
    names: Seq<Option<Vec<u8>>>,
    n: nat,
) -> Seq<CommandModel> {
    Seq::new(
        n,
        |i: int|
            CommandModel {
                code: parsed.cmd_codes@[i],
                description: command_name(parsed.cmd_codes@[i], names[i]),
            },
    )
}

spec fn described_features(
    parsed: ParsedCapabilities,
    metadata: Seq<(i32, Option<RawMetadata>)>,
    n: nat,
) -> Seq<FeatureModel> {
    Seq::new(n, |i: int| described_feature(parsed.vcp_codes@[i], metadata[i].1))
}

proof fn commands_are_named(
    purpose: Purpose,
    handle: DisplayHandle,
    model: Seq<char>,
    parsed: ParsedCapabilities,
    start: ProgressModel,
    names: Seq<Option<Vec<u8>>>,
    n: nat,
)
    requires
        names.len() == parsed.cmd_codes@.len(),
        n <= names.len(),
        start == within(purpose, handle, after_commands(handle, model, parsed, Seq::empty())),
    ensures
        after_names(start, names, n) == within(
            purpose,
            handle,
            after_commands(handle, model, parsed, named_commands(parsed, names, n)),
        ),
    decreases n,
{
    if n == 0 {
        assert(named_commands(parsed, names, 0) =~= Seq::empty());
    } else {
        let m = (n - 1) as nat;
        commands_are_named(purpose, handle, model, parsed, start, names, m);
        let before = named_commands(parsed, names, m);
        assert(before.len() == m);
        let code = parsed.cmd_codes@[m as int];
        assert(before.push(
            CommandModel { code, description: command_name(code, names[m as int]) },
        ) =~= named_commands(parsed, names, n));
    }
}

proof fn features_are_described(
    purpose: Purpose,
    handle: DisplayHandle,
    model: Seq<char>,
    parsed: ParsedCapabilities,
    commands: Seq<CommandModel>,
    start: ProgressModel,
    metadata: Seq<(i32, Option<RawMetadata>)>,
    n: nat,
)
    requires
        metadata.len() == parsed.vcp_codes@.len(),
        n <= metadata.len(),
        start == within(
            purpose,
            handle,
            after_features(handle, model, parsed, commands, Seq::empty()),
        ),
    ensures
        after_metadata(start, metadata, n) == within(
            purpose,
            handle,
            after_features(
                handle,
                model,
                parsed,
                commands,
                described_features(parsed, metadata, n),
            ),
        ),
    decreases n,
{
    if n == 0 {
        assert(described_features(parsed, metadata, 0) =~= Seq::empty());
    } else {
        let m = (n - 1) as nat;
        features_are_described(purpose, handle, model, parsed, commands, start, metadata, m);
        let before = described_features(parsed, metadata, m);
        assert(before.len() == m);
        let raw = parsed.vcp_codes@[m as int];
        assert(before.push(described_feature(raw, metadata[m as int].1)) =~= described_features(
            parsed,
            metadata,
            n,
        ));
    }
}

/// No later one of the codes is the same.
pub open spec fn is_last_code(codes: Seq<u8>, i: int) -> bool {
    0 <= i < codes.len() && forall|j: int| i < j < codes.len() ==> #[trigger] codes[j] != codes[i]
}

/// The map has a key for each of the codes and for nothing else.
pub open spec fn has_keys_of<T>(map: Map<Seq<char>, T>, codes: Seq<u8>) -> bool {
    forall|key: Seq<char>| #[trigger]
        map.dom().contains(key) <==> exists|i: int|
            0 <= i < codes.len() && upper_hex(#[trigger] codes[i]) == key
}

/// The codes of features.
pub open spec fn feature_codes(features: Seq<RawFeature>) -> Seq<u8> {
    features.map_values(|f: RawFeature| f.feature_code)
}

/// The client is told of a feature as libddcutil describes it: each value that the
/// display lists and the metadata names is there under its code, and no other is.
pub open spec fn tells_of_feature(
    told: CapabilitiesFeatureModel,
    raw: RawFeature,
    metadata: Option<RawMetadata>,
) -> bool {
    match metadata {
        Some(md) => {
            &&& told.feature_name == said(md.feature_name, ""@)
            &&& told.feature_description == said(md.feature_desc, ""@)
            &&& forall|key: Seq<char>| #[trigger]
                told.values.dom().contains(key) ==> exists|i: int|
                    0 <= i < raw.values@.len() && upper_hex(#[trigger] raw.values@[i]) == key
                        && is_defined(md.sl_values@, raw.values@[i])
            &&& forall|i: int|
                0 <= i < raw.values@.len() && is_defined(
                    md.sl_values@,
                    #[trigger] raw.values@[i],
                ) ==> told.values.dom().contains(upper_hex(raw.values@[i])) && is_defined_as(
                    md.sl_values@,
                    raw.values@[i],
                    told.values[upper_hex(raw.values@[i])],
                )
        },
        None => {
            &&& told.feature_name == "VCP 0x"@ + hex(raw.feature_code)
            &&& told.feature_description == Seq::<char>::empty()
            &&& told.values == Map::<Seq<char>, Seq<char>>::empty()
        },
    }
}

/// A table has one name for a code.
pub proof fn definition_is_unique(table: Seq<RawValue>, code: u8, a: Seq<char>, b: Seq<char>)
    requires
        is_defined_as(table, code, a),
        is_defined_as(table, code, b),
    ensures
        a == b,
{
    let k = choose|k: int| #[trigger]
        defines(table, code, k) && (table[k].value_name matches Some(bytes) && a == utf8_lossy(
            bytes@,
        ));
    let m = choose|m: int| #[trigger]
        defines(table, code, m) && (table[m].value_name matches Some(bytes) && b == utf8_lossy(
            bytes@,
        ));
    if k < m {
        assert(table[k].value_code != code);
    }
    if m < k {
        assert(table[m].value_code != code);
    }
}

/// The place of the last value with the code of the one at `v`.
proof fn last_with_code(values: Seq<ValueModel>, v: int) -> (w: int)
    requires
        0 <= v < values.len(),
    ensures
        v <= w < values.len(),
        values[w].code == values[v].code,
        forall|j: int| w < j < values.len() ==> (#[trigger] values[j]).code != values[w].code,
    decreases values.len() - v,
{
    if exists|j: int| v < j < values.len() && (#[trigger] values[j]).code == values[v].code {
        let j = choose|j: int|
            v < j < values.len() && (#[trigger] values[j]).code == values[v].code;
        last_with_code(values, j)
    } else {
        v
    }
}

/// What a client is told of a feature is what libddcutil describes.
pub proof fn client_is_told_of_the_feature(raw: RawFeature, metadata: Option<RawMetadata>)
    ensures
        tells_of_feature(converted_feature(described_feature(raw, metadata)), raw, metadata),
{
    let feature = described_feature(raw, metadata);
    let told = converted_feature(feature);
    feature_is_described_by_its_metadata(raw, metadata);
    gathered_values_are_told(feature);
    match metadata {
        Some(md) => {
            let table = md.sl_values@;
            let codes = raw.values@;
            let values = feature.values;
            let places = choose|places: Seq<int>| #[trigger]
                are_the_defined(values, codes, table, places);
            assert forall|key: Seq<char>| #[trigger]
                told.values.dom().contains(key) implies exists|i: int|
                0 <= i < codes.len() && upper_hex(#[trigger] codes[i]) == key && is_defined(
                    table,
                    codes[i],
                ) by {
                let v = choose|v: int|
                    0 <= v < values.len() && upper_hex((#[trigger] values[v]).code) == key;
                assert(is_defined_as(table, values[v].code, values[v].name));
                let k = choose|k: int| #[trigger]
                    defines(table, values[v].code, k) && (table[k].value_name matches Some(b)
                        && values[v].name == utf8_lossy(b@));
                assert(codes[places[v]] == values[v].code);
            }
            assert forall|i: int|
                0 <= i < codes.len() && is_defined(
                    table,
                    #[trigger] codes[i],
                ) implies told.values.dom().contains(upper_hex(codes[i])) && is_defined_as(
                table,
                codes[i],
                told.values[upper_hex(codes[i])],
            ) by {
                assert(places.contains(i));
                let v = choose|v: int| 0 <= v < places.len() && places[v] == i;
                assert(values[v].code == codes[i]);
                let w = last_with_code(values, v);
                assert(told.values[upper_hex(values[w].code)] == values[w].name);
                assert(is_defined_as(table, values[w].code, values[w].name));
            }
        },
        None => {
            assert(told.values =~= Map::empty());
        },
    }
}

/// To ask for the capabilities of a display is to find and open it, to read the
/// capabilities string, to have it parsed, to ask for the name of each command and for
/// the metadata of each feature, in their order, to close the display, and to reply all
/// of them: under each code the last command or feature that has it.
pub proof fn get_capabilities_metadata_replies_all(
    target: Target,
    displays: Vec<RawDisplay>,
    j: int,
    ddca_handle: usize,
    bytes: Vec<u8>,
    parsed: ParsedCapabilities,
    names: Seq<Option<Vec<u8>>>,
    metadata: Seq<(i32, Option<RawMetadata>)>,
)
    requires
        names_first(target, displays@, j),
        names.len() == parsed.cmd_codes@.len(),
        metadata.len() == parsed.vcp_codes@.len(),
    ensures
        ({
            let handle = handle_of(displays, j, ddca_handle);
            let start = opened(Purpose::GetCapabilitiesMetadata { target }, displays, ddca_handle);
            let parsing = goes_on(start, DdcReply::Text { status: 0, text: Some(bytes) });
            let naming = goes_on(
                parsing,
                DdcReply::Capabilities { status: 0, parsed: Some(parsed) },
            );
            let describing = after_names(naming, names, names.len());
            let closing = after_metadata(describing, metadata, metadata.len());
            let replied = goes_on(closing, DdcReply::Done);
            &&& asks(start, DdcRequest::ReadCapabilities { handle })
            &&& asks(parsing, DdcRequest::ParseCapabilities { text: bytes })
            &&& forall|k: int|
                0 <= k < names.len() ==> asks(
                    #[trigger] after_names(naming, names, k as nat),
                    DdcRequest::FeatureName { code: parsed.cmd_codes@[k] },
                )
            &&& forall|k: int|
                0 <= k < metadata.len() ==> asks(
                    #[trigger] after_metadata(describing, metadata, k as nat),
                    DdcRequest::FeatureMetadata { handle, code: parsed.vcp_codes@[k].feature_code },
                )
            &&& asks(closing, DdcRequest::CloseDisplay { handle })
            &&& replied matches ProgressModel::Step {
                step: StepModel::Reply { reply: ReplyModel::Capabilities { capabilities } },
                ..
            } && tells_of_capabilities(capabilities, bytes@, parsed, names, metadata)
            &&& goes_on(replied, DdcReply::Done) is Finished
        }),
{
    first_named_is_found(target, displays@, j);
    let handle = handle_of(displays, j, ddca_handle);
    let purpose = Purpose::GetCapabilitiesMetadata { target };
    let start = opened(purpose, displays, ddca_handle);
    let parsing = goes_on(start, DdcReply::Text { status: 0, text: Some(bytes) });
    let naming = goes_on(parsing, DdcReply::Capabilities { status: 0, parsed: Some(parsed) });
    let describing = after_names(naming, names, names.len());
    let model = model_named(bytes@);
    let commands = named_commands(parsed, names, names.len());
    let features = described_features(parsed, metadata, metadata.len());
    assert(naming == within(
        purpose,
        handle,
        after_commands(handle, model, parsed, Seq::empty()),
    ));
    assert forall|k: int| 0 <= k < names.len() implies asks(
        #[trigger] after_names(naming, names, k as nat),
        DdcRequest::FeatureName { code: parsed.cmd_codes@[k] },
    ) by {
        commands_are_named(purpose, handle, model, parsed, naming, names, k as nat);
        assert(named_commands(parsed, names, k as nat).len() == k);
    }
    commands_are_named(purpose, handle, model, parsed, naming, names, names.len());
    assert(commands.len() == names.len());
    assert forall|k: int| 0 <= k < metadata.len() implies asks(
        #[trigger] after_metadata(describing, metadata, k as nat),
        DdcRequest::FeatureMetadata { handle, code: parsed.vcp_codes@[k].feature_code },
    ) by {
        features_are_described(
            purpose,
            handle,
            model,
            parsed,
            commands,
            describing,
            metadata,
            k as nat,
        );
        assert(described_features(parsed, metadata, k as nat).len() == k);
    }
    features_are_described(
        purpose,
        handle,
        model,
        parsed,
        commands,
        describing,
        metadata,
        metadata.len(),
    );
    assert(features.len() == metadata.len());
    let data = CapabilitiesModel {
        model_name: model,
        mccs_major: parsed.major,
        mccs_minor: parsed.minor,
        commands,
        features,
    };
    all_is_told(data, bytes@, parsed, names, metadata);
}

/// The client is told of everything that libddcutil has of the capabilities.
pub open spec fn tells_of_capabilities(
    told: CapabilitiesReplyModel,
    bytes: Seq<u8>,
    parsed: ParsedCapabilities,
    names: Seq<Option<Vec<u8>>>,
    metadata: Seq<(i32, Option<RawMetadata>)>,
) -> bool {
    let codes = parsed.cmd_codes@;
    let raws = parsed.vcp_codes@;
    &&& told.model_name == model_named(bytes)
    &&& told.mccs_major == parsed.major
    &&& told.mccs_minor == parsed.minor
    &&& has_keys_of(told.commands, codes)
    &&& forall|i: int| #[trigger]
        is_last_code(codes, i) ==> told.commands[upper_hex(codes[i])] == command_name(
            codes[i],
            names[i],
        )
    &&& has_keys_of(told.capabilities, feature_codes(raws))
    &&& forall|i: int| #[trigger]
        is_last_code(feature_codes(raws), i) ==> tells_of_feature(
            told.capabilities[upper_hex(raws[i].feature_code)],
            raws[i],
            metadata[i].1,
        )
}

proof fn all_is_told(
    data: CapabilitiesModel,
    bytes: Seq<u8>,
    parsed: ParsedCapabilities,
    names: Seq<Option<Vec<u8>>>,
    metadata: Seq<(i32, Option<RawMetadata>)>,
)
    requires
        names.len() == parsed.cmd_codes@.len(),
        metadata.len() == parsed.vcp_codes@.len(),
        data.model_name == model_named(bytes),
        data.mccs_major == parsed.major,
        data.mccs_minor == parsed.minor,
        data.commands == named_commands(parsed, names, names.len()),
        data.features == described_features(parsed, metadata, metadata.len()),
    ensures
        tells_of_capabilities(converted(data), bytes, parsed, names, metadata),
{
    let told = converted(data);
    let codes = parsed.cmd_codes@;
    let raws = parsed.vcp_codes@;
    gathered_capabilities_are_told(data);
    assert forall|key: Seq<char>| #[trigger]
        told.commands.dom().contains(key) <==> exists|i: int|
        0 <= i < codes.len() && upper_hex(#[trigger] codes[i]) == key by {
        if exists|i: int| 0 <= i < codes.len() && upper_hex(#[trigger] codes[i]) == key {
            let i = choose|i: int| 0 <= i < codes.len() && upper_hex(#[trigger] codes[i]) == key;
            assert(upper_hex(data.commands[i].code) == key);
        }
        if told.commands.dom().contains(key) {
            let i = choose|i: int|
                0 <= i < data.commands.len() && upper_hex((#[trigger] data.commands[i]).code)
                    == key;
            assert(upper_hex(codes[i]) == key);
        }
    }
    assert forall|i: int| #[trigger] is_last_code(codes, i) implies told.commands[upper_hex(
        codes[i],
    )] == command_name(codes[i], names[i]) by {
        assert(data.commands[i].code == codes[i]);
        assert forall|j: int| i < j < data.commands.len() implies (
        #[trigger] data.commands[j]).code != data.commands[i].code by {
            assert(codes[j] != codes[i]);
        }
    }
    let listed = feature_codes(raws);
    assert forall|key: Seq<char>| #[trigger]
        told.capabilities.dom().contains(key) <==> exists|i: int|
        0 <= i < listed.len() && upper_hex(#[trigger] listed[i]) == key by {
        if exists|i: int| 0 <= i < listed.len() && upper_hex(#[trigger] listed[i]) == key {
            let i = choose|i: int| 0 <= i < listed.len() && upper_hex(#[trigger] listed[i]) == key;
            feature_is_described_by_its_metadata(raws[i], metadata[i].1);
            assert(upper_hex(data.features[i].code) == key);
        }
        if told.capabilities.dom().contains(key) {
            let i = choose|i: int|
                0 <= i < data.features.len() && upper_hex((#[trigger] data.features[i]).code)
                    == key;
            feature_is_described_by_its_metadata(raws[i], metadata[i].1);
            assert(upper_hex(listed[i]) == key);
        }
    }
    assert forall|i: int| #[trigger] is_last_code(listed, i) implies tells_of_feature(
        told.capabilities[upper_hex(raws[i].feature_code)],
        raws[i],
        metadata[i].1,
    ) by {
        feature_is_described_by_its_metadata(raws[i], metadata[i].1);
        client_is_told_of_the_feature(raws[i], metadata[i].1);
        assert(data.features[i].code == listed[i]);
        assert forall|j: int| i < j < data.features.len() implies (
        #[trigger] data.features[j]).code != data.features[i].code by {
            feature_is_described_by_its_metadata(raws[j], metadata[j].1);
            assert(listed[j] != listed[i]);
        }
    }
}

/// Capabilities that cannot be read or parsed: the display is closed, and the client is
/// told of the status, or that there are none.
pub proof fn failed_get_capabilities_metadata_is_told(
    target: Target,
    displays: Vec<RawDisplay>,
    j: int,
    ddca_handle: usize,
    bytes: Vec<u8>,
    text: Option<Vec<u8>>,
    parsed: Option<ParsedCapabilities>,
    status: i32,
    saying: Saying,
)
    requires
        names_first(target, displays@, j),
    ensures
        ({
            let handle = handle_of(displays, j, ddca_handle);
            let start = opened(Purpose::GetCapabilitiesMetadata { target }, displays, ddca_handle);
            let parsing = goes_on(start, DdcReply::Text { status: 0, text: Some(bytes) });
            let none = failure(target, None, -1, "Missing Capabilities"@);
            &&& status != 0 ==> closes_and_explains(
                goes_on(start, DdcReply::Text { status, text }),
                handle,
                target,
                None,
                status,
                saying,
            ) && closes_and_explains(
                goes_on(parsing, DdcReply::Capabilities { status, parsed }),
                handle,
                target,
                None,
                status,
                saying,
            )
            &&& closes_and_ends(
                goes_on(start, DdcReply::Text { status: 0, text: None }),
                handle,
                none,
            )
            &&& closes_and_ends(
                goes_on(parsing, DdcReply::Capabilities { status: 0, parsed: None }),
                handle,
                none,
            )
        }),
{
    first_named_is_found(target, displays@, j);
    if status != 0 {
        let purpose = Purpose::GetCapabilitiesMetadata { target };
        status_is_explained(purpose, target, None, None, status, saying, None);
    }
}

} // verus!
