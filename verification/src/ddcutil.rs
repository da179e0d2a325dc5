//! Displays and their features as libddcutil reports them.
use crate::device::{Double, RawDisplay};
use crate::edid::{
    base64_text, base64_text_is_injective, edid_serial_number, encode_base64, serial_number,
};
use crate::text::{
    c_ptr_to_string, c_text, cstr_from_fixed_array, debug_notation, debug_text, decimal,
    decimal_text, field_text, has_prefix, is_base64_char,
};
use vstd::prelude::*;
use vstd::string::*;

verus! {

/// The reference by which libddcutil knows a display.
pub type DisplayRef = usize;

/// An open display.
#[derive(Clone, Copy, Debug, PartialEq, Eq, Structural)]
pub struct DisplayHandle {
    pub ddca_handle: usize,
    pub dref: DisplayRef,
}

/// What can go wrong with a display operation.
#[derive(Debug)]
pub enum Error {
    Status(i32),
    Utf8,
    MissingIdentifier,
    DisplayNotFound { display_number: i64, edid_base64: String, status: i64, message: String },
    MissingCapabilities,
    DpmsQueryFailed { display_ref: i64, message: String },
}

/// What an error says.
pub enum ErrorModel {
    Status(i32),
    Utf8,
    MissingIdentifier,
    DisplayNotFound {
        display_number: i64,
        edid_base64: Seq<char>,
        status: i64,
        message: Seq<char>,
    },
    MissingCapabilities,
    DpmsQueryFailed { display_ref: i64, message: Seq<char> },
}

impl View for Error {
    type V = ErrorModel;

    open spec fn view(&self) -> ErrorModel {
        match *self {
            Error::Status(code) => ErrorModel::Status(code),
            Error::Utf8 => ErrorModel::Utf8,
            Error::MissingIdentifier => ErrorModel::MissingIdentifier,
            Error::DisplayNotFound { display_number, edid_base64, status, message } =>
                ErrorModel::DisplayNotFound {
                display_number,
                edid_base64: edid_base64@,
                status,
                message: message@,
            },
            Error::MissingCapabilities => ErrorModel::MissingCapabilities,
            Error::DpmsQueryFailed { display_ref, message } => ErrorModel::DpmsQueryFailed {
                display_ref,
                message: message@,
            },
        }
    }
}

impl ErrorModel {
    /// The status that libddcutil gave; -1 for any other error.
    pub open spec fn status_code(self) -> int {
        match self {
            ErrorModel::Status(code) => code as int,
            _ => -1,
        }
    }

    /// The message for people.
    pub open spec fn message(self) -> Seq<char> {
        match self {
            ErrorModel::Status(code) => "DDC/CI error: "@ + decimal(code as int),
            ErrorModel::Utf8 => "UTF-8 conversion error"@,
            ErrorModel::MissingIdentifier => "No Display_Number or EDID supplied"@,
            ErrorModel::DisplayNotFound { .. } => "Display not found"@,
            ErrorModel::MissingCapabilities => "Missing Capabilities"@,
            ErrorModel::DpmsQueryFailed { .. } => "DDC/CI DPMS query failed"@,
        }
    }
}

impl Error {
    /// The status that libddcutil gave; -1 for any other error.
    pub fn status_code(&self) -> (res: i64)
        ensures
            res == self@.status_code(),
    {
        match self {
            Error::Status(code) => *code as i64,
            _ => -1,
        }
    }

    /// The message for people.
    pub fn message(&self) -> (res: String)
        ensures
            res@ == self@.message(),
    {
        match self {
            Error::Status(code) => "DDC/CI error: ".to_owned().concat(
                decimal_text(*code as i64).as_str(),
            ),
            Error::Utf8 => "UTF-8 conversion error".to_owned(),
            Error::MissingIdentifier => "No Display_Number or EDID supplied".to_owned(),
            Error::DisplayNotFound { .. } => "Display not found".to_owned(),
            Error::MissingCapabilities => "Missing Capabilities".to_owned(),
            Error::DpmsQueryFailed { .. } => "DDC/CI DPMS query failed".to_owned(),
        }
    }
}

/// The result of a display operation.
pub type Result<T> = std::result::Result<T, Error>;

/// A result with its error as the error reads.
pub open spec fn outcome<T>(result: Result<T>) -> std::result::Result<T, ErrorModel> {
    match result {
        Ok(value) => Ok(value),
        Err(error) => Err(error@),
    }
}

/// The status of a call as a result: zero is success.
pub open spec fn status_outcome(status: i32) -> std::result::Result<(), ErrorModel> {
    if status != 0 {
        Err(ErrorModel::Status(status))
    } else {
        Ok(())
    }
}

/// Turns the status of a call into a result: zero is success.
pub fn check_status(status: i32) -> (res: Result<()>)
    ensures
        outcome(res) == status_outcome(status),
{
    if status != 0 {
        return Err(Error::Status(status));
    }
    Ok(())
}

/// A display, in the terms of the service.
#[derive(Clone, Debug)]
pub struct DisplayInfo {
    pub display_ref: DisplayRef,
    pub display_number: i32,
    pub manufacturer_id: String,
    pub model_name: String,
    pub serial_number: String,
    pub edid_bytes: [u8; 128],
    pub product_code: u16,
    pub usb_bus: i32,
    pub usb_device: i32,
    pub edid_serial_number: String,
}

/// What the service knows of a display.
pub struct DisplayModel {
    pub display_ref: DisplayRef,
    pub display_number: i32,
    pub manufacturer_id: Seq<char>,
    pub model_name: Seq<char>,
    pub serial_number: Seq<char>,
    pub edid_bytes: [u8; 128],
    pub product_code: u16,
    pub usb_bus: i32,
    pub usb_device: i32,
    pub edid_serial_number: Seq<char>,
}

impl View for DisplayInfo {
    type V = DisplayModel;

    open spec fn view(&self) -> DisplayModel {
        DisplayModel {
            display_ref: self.display_ref,
            display_number: self.display_number,
            manufacturer_id: self.manufacturer_id@,
            model_name: self.model_name@,
            serial_number: self.serial_number@,
            edid_bytes: self.edid_bytes,
            product_code: self.product_code,
            usb_bus: self.usb_bus,
            usb_device: self.usb_device,
            edid_serial_number: self.edid_serial_number@,
        }
    }
}

/// What a record of libddcutil tells of a display.
pub open spec fn display_model(raw: RawDisplay) -> DisplayModel {
    DisplayModel {
        display_ref: raw.dref,
        display_number: raw.dispno,
        manufacturer_id: field_text(raw.mfg_id@),
        model_name: field_text(raw.model_name@),
        serial_number: field_text(raw.sn@),
        edid_bytes: raw.edid_bytes,
        product_code: raw.product_code,
        usb_bus: raw.usb_bus,
        usb_device: raw.usb_device,
        edid_serial_number: decimal(serial_number(raw.edid_bytes@)),
    }
}

impl DisplayInfo {
    /// Reads a record of libddcutil.
    pub fn from_raw(raw: &RawDisplay) -> (res: DisplayInfo)
        ensures
            res@ == display_model(*raw),
    {
        DisplayInfo {
            display_ref: raw.dref,
            display_number: raw.dispno,
            manufacturer_id: cstr_from_fixed_array(&raw.mfg_id),
            model_name: cstr_from_fixed_array(&raw.model_name),
            serial_number: cstr_from_fixed_array(&raw.sn),
            edid_bytes: raw.edid_bytes,
            product_code: raw.product_code,
            usb_bus: raw.usb_bus,
            usb_device: raw.usb_device,
            edid_serial_number: decimal_text(edid_serial_number(&raw.edid_bytes) as i64),
        }
    }
}

/// The list of displays that libddcutil holds.
pub struct DisplayList {
    displays: Vec<RawDisplay>,
}

impl View for DisplayList {
    type V = Seq<RawDisplay>;

    closed spec fn view(&self) -> Seq<RawDisplay> {
        self.displays@
    }
}

/// The list that a call of libddcutil gave; a missing list counts as status -1.
pub open spec fn listed(status: i32, displays: Option<Vec<RawDisplay>>) -> std::result::Result<
    Seq<RawDisplay>,
    ErrorModel,
> {
    if status != 0 {
        Err(ErrorModel::Status(status))
    } else {
        match displays {
            Some(displays) => Ok(displays@),
            None => Err(ErrorModel::Status(-1i32)),
        }
    }
}

/// The display has the number, or its EDID in Base64 is the given one, or, where
/// a prefix will do, begins with it.
pub open spec fn is_meant(
    raw: RawDisplay,
    display_number: Option<i64>,
    edid_base64: Option<Seq<char>>,
    allow_edid_prefix: bool,
) -> bool {
    ||| display_number == Some(raw.dispno as i64)
    ||| edid_base64 matches Some(wanted) && if allow_edid_prefix {
        wanted.is_prefix_of(base64_text(raw.edid_bytes@))
    } else {
        wanted == base64_text(raw.edid_bytes@)
    }
}

/// The reference of the first display of the list that is meant.
pub open spec fn found(
    list: Seq<RawDisplay>,
    display_number: Option<i64>,
    edid_base64: Option<Seq<char>>,
    allow_edid_prefix: bool,
) -> Option<DisplayRef>
    decreases list.len(),
{
    if list.len() == 0 {
        None
    } else {
        match found(list.drop_last(), display_number, edid_base64, allow_edid_prefix) {
            Some(dref) => Some(dref),
            None => if is_meant(list.last(), display_number, edid_base64, allow_edid_prefix) {
                Some(list.last().dref)
            } else {
                None
            },
        }
    }
}

/// A string slice as the text it holds.
pub open spec fn text_of(s: Option<&str>) -> Option<Seq<char>> {
    match s {
        Some(s) => Some(s@),
        None => None,
    }
}

impl DisplayList {
    /// Takes the list that a call of libddcutil gave.
    pub fn new(status: i32, displays: Option<Vec<RawDisplay>>) -> (res: Result<DisplayList>)
        ensures
            match res {
                Ok(list) => listed(status, displays) == Ok::<_, ErrorModel>(list@),
                Err(error) => listed(status, displays) == Err::<Seq<RawDisplay>, _>(error@),
            },
    {
        if status != 0 {
            return Err(Error::Status(status));
        }
        match displays {
            Some(displays) => Ok(DisplayList { displays }),
            None => Err(Error::Status(-1)),
        }
    }

    /// Finds a display by display number or EDID (with optional prefix match).
    /// Gives the reference of the first display that either of them names.
    pub fn find_by_id(
        &self,
        display_number: Option<i64>,
        edid_base64: Option<&str>,
        allow_edid_prefix: bool,
    ) -> (res: Option<DisplayRef>)
        ensures
            res == found(self@, display_number, text_of(edid_base64), allow_edid_prefix),
    {
        for i in 0..self.displays.len()
            invariant
                found(
                    self@.take(i as int),
                    display_number,
                    text_of(edid_base64),
                    allow_edid_prefix,
                ) is None,
        {
            let raw = &self.displays[i];
            assert(self@.take(i + 1).drop_last() =~= self@.take(i as int));
            assert(self@.take(i + 1).last() == *raw);
            let meant = self.is_meant_at(i, display_number, edid_base64, allow_edid_prefix);
            if meant {
                proof {
                    found_extends(
                        self@,
                        i + 1,
                        display_number,
                        text_of(edid_base64),
                        allow_edid_prefix,
                    );
                }
                return Some(raw.dref);
            }
        }
        assert(self@.take(self@.len() as int) =~= self@);
        None
    }

    fn is_meant_at(
        &self,
        i: usize,
        display_number: Option<i64>,
        edid_base64: Option<&str>,
        allow_edid_prefix: bool,
    ) -> (res: bool)
        requires
            i < self@.len(),
        ensures
            res == is_meant(
                self@[i as int],
                display_number,
                text_of(edid_base64),
                allow_edid_prefix,
            ),
    {
        let raw = &self.displays[i];
        match display_number {
            Some(number) => {
                if number == raw.dispno as i64 {
                    return true;
                }
            },
            None => {},
        }
        match edid_base64 {
            Some(wanted) => {
                let edid = encode_base64(&raw.edid_bytes);
                if allow_edid_prefix {
                    has_prefix(edid.as_str(), wanted)
                } else {
                    edid == wanted.to_owned()
                }
            },
            None => false,
        }
    }

    /// The number of displays in the list.
    pub fn len(&self) -> (res: usize)
        ensures
            res == self@.len(),
    {
        self.displays.len()
    }

    /// Walks the displays of the list.
    pub fn iter(&self) -> (res: DisplayListIter<'_>)
        ensures
            res.rest() == self@,
    {
        assert(self.displays@.skip(0) =~= self@);
        DisplayListIter { list: self, index: 0 }
    }
}

/// A walk over the displays of a list.
pub struct DisplayListIter<'a> {
    list: &'a DisplayList,
    index: usize,
}

impl<'a> DisplayListIter<'a> {
    /// The displays that are still to come.
    pub closed spec fn rest(self) -> Seq<RawDisplay> {
        if self.index <= self.list.displays@.len() {
            self.list.displays@.skip(self.index as int)
        } else {
            Seq::empty()
        }
    }

    /// Gives the next display, if there is one.
    pub fn next(&mut self) -> (res: Option<&'a RawDisplay>)
        ensures
            match res {
                Some(raw) => old(self).rest().len() > 0 && *raw == old(self).rest().first()
                    && final(self).rest() == old(self).rest().drop_first(),
                None => old(self).rest().len() == 0 && final(self).rest() == old(self).rest(),
            },
    {
        if self.index < self.list.displays.len() {
            let raw = &self.list.displays[self.index];
            self.index += 1;
            assert(self.rest() =~= old(self).rest().drop_first());
            Some(raw)
        } else {
            None
        }
    }
}

/// A display that is found early in the list is the one that is found.
proof fn found_extends(
    list: Seq<RawDisplay>,
    n: int,
    display_number: Option<i64>,
    edid_base64: Option<Seq<char>>,
    allow_edid_prefix: bool,
)
    requires
        0 <= n <= list.len(),
        found(list.take(n), display_number, edid_base64, allow_edid_prefix) is Some,
    ensures
        found(list, display_number, edid_base64, allow_edid_prefix) == found(
            list.take(n),
            display_number,
            edid_base64,
            allow_edid_prefix,
        ),
    decreases list.len(),
{
    if n == list.len() {
        assert(list.take(n) =~= list);
    } else {
        assert(list.drop_last().take(n) =~= list.take(n));
        found_extends(list.drop_last(), n, display_number, edid_base64, allow_edid_prefix);
    }
}

/// A search succeeds exactly if some display is meant, and gives the reference of
/// one that is meant and that no other meant display stands before.
pub proof fn search_finds_first_meant(
    list: Seq<RawDisplay>,
    display_number: Option<i64>,
    edid_base64: Option<Seq<char>>,
    allow_edid_prefix: bool,
)
    ensures
        match found(list, display_number, edid_base64, allow_edid_prefix) {
            Some(dref) => exists|i: int|
                0 <= i < list.len() && (#[trigger] list[i]).dref == dref && is_meant(
                    list[i],
                    display_number,
                    edid_base64,
                    allow_edid_prefix,
                ) && (forall|j: int|
                    0 <= j < i ==> !is_meant(
                        #[trigger] list[j],
                        display_number,
                        edid_base64,
                        allow_edid_prefix,
                    )),
            None => forall|i: int|
                0 <= i < list.len() ==> !is_meant(
                    #[trigger] list[i],
                    display_number,
                    edid_base64,
                    allow_edid_prefix,
                ),
        },
    decreases list.len(),
{
    if list.len() > 0 {
        let init = list.drop_last();
        search_finds_first_meant(init, display_number, edid_base64, allow_edid_prefix);
        match found(init, display_number, edid_base64, allow_edid_prefix) {
            Some(dref) => {
                let i = choose|i: int|
                    0 <= i < init.len() && (#[trigger] init[i]).dref == dref && is_meant(
                        init[i],
                        display_number,
                        edid_base64,
                        allow_edid_prefix,
                    ) && (forall|j: int|
                        0 <= j < i ==> !is_meant(
                            #[trigger] init[j],
                            display_number,
                            edid_base64,
                            allow_edid_prefix,
                        ));
                assert(list[i] == init[i]);
                assert forall|j: int| 0 <= j < i implies !is_meant(
                    #[trigger] list[j],
                    display_number,
                    edid_base64,
                    allow_edid_prefix,
                ) by {
                    assert(list[j] == init[j]);
                }
            },
            None => {
                assert forall|j: int| 0 <= j < init.len() implies !is_meant(
                    #[trigger] list[j],
                    display_number,
                    edid_base64,
                    allow_edid_prefix,
                ) by {
                    assert(list[j] == init[j]);
                }
                assert(list[list.len() - 1] == list.last());
            },
        }
    }
}

/// A display of the list is found by its number: the first one that has the same
/// number is given. Where no other has that number, it is the display itself.
pub proof fn display_is_found_by_its_number(list: Seq<RawDisplay>, i: int, allow_edid_prefix: bool)
    requires
        0 <= i < list.len(),
    ensures
        exists|j: int|
            0 <= j <= i && (#[trigger] list[j]).dispno == list[i].dispno && found(
                list,
                Some(list[i].dispno as i64),
                None,
                allow_edid_prefix,
            ) == Some(list[j].dref),
        (forall|k: int| 0 <= k < i ==> (#[trigger] list[k]).dispno != list[i].dispno) ==> found(
            list,
            Some(list[i].dispno as i64),
            None,
            allow_edid_prefix,
        ) == Some(list[i].dref),
{
    let number = Some(list[i].dispno as i64);
    assert(is_meant(list[i], number, None, allow_edid_prefix));
    let j = first_meant(list, number, None, allow_edid_prefix, i);
    assert(list[j].dispno == list[i].dispno);
}

/// A display of the list is found by its EDID, also where a prefix will do: the first
/// one that has the same EDID is given. Where no other has that EDID, it is the
/// display itself.
pub proof fn display_is_found_by_its_edid(list: Seq<RawDisplay>, i: int, allow_edid_prefix: bool)
    requires
        0 <= i < list.len(),
    ensures
        exists|j: int|
            0 <= j <= i && (#[trigger] list[j]).edid_bytes@ == list[i].edid_bytes@ && found(
                list,
                None,
                Some(base64_text(list[i].edid_bytes@)),
                allow_edid_prefix,
            ) == Some(list[j].dref),
        (forall|k: int| 0 <= k < i ==> (#[trigger] list[k]).edid_bytes@ != list[i].edid_bytes@)
            ==> found(list, None, Some(base64_text(list[i].edid_bytes@)), allow_edid_prefix)
            == Some(list[i].dref),
{
    let wanted = base64_text(list[i].edid_bytes@);
    assert(wanted =~= wanted.subrange(0, wanted.len() as int));
    assert(is_meant(list[i], None, Some(wanted), allow_edid_prefix));
    let j = first_meant(list, None, Some(wanted), allow_edid_prefix, i);
    let text = base64_text(list[j].edid_bytes@);
    assert(text =~= text.subrange(0, text.len() as int));
    assert(wanted.len() == text.len());
    base64_text_is_injective(list[j].edid_bytes@, list[i].edid_bytes@);
}

/// Where a prefix will do, a display of the list is found by any beginning of its
/// EDID: the first one whose EDID begins so is given. Where that of no other does, it
/// is the display itself.
pub proof fn display_is_found_by_a_prefix(list: Seq<RawDisplay>, i: int, prefix: Seq<char>)
    requires
        0 <= i < list.len(),
        prefix.is_prefix_of(base64_text(list[i].edid_bytes@)),
    ensures
        exists|j: int|
            0 <= j <= i && prefix.is_prefix_of(base64_text((#[trigger] list[j]).edid_bytes@))
                && found(list, None, Some(prefix), true) == Some(list[j].dref),
        (forall|k: int|
            0 <= k < i ==> !prefix.is_prefix_of(base64_text((#[trigger] list[k]).edid_bytes@)))
            ==> found(list, None, Some(prefix), true) == Some(list[i].dref),
{
    assert(is_meant(list[i], None, Some(prefix), true));
    let j = first_meant(list, None, Some(prefix), true, i);
    assert(prefix.is_prefix_of(base64_text(list[j].edid_bytes@)));
}

/// The place of the display that a search finds, where some display is meant.
proof fn first_meant(
    list: Seq<RawDisplay>,
    display_number: Option<i64>,
    edid_base64: Option<Seq<char>>,
    allow_edid_prefix: bool,
    i: int,
) -> (j: int)
    requires
        0 <= i < list.len(),
        is_meant(list[i], display_number, edid_base64, allow_edid_prefix),
    ensures
        0 <= j <= i,
        is_meant(list[j], display_number, edid_base64, allow_edid_prefix),
        found(list, display_number, edid_base64, allow_edid_prefix) == Some(list[j].dref),
{
    search_finds_first_meant(list, display_number, edid_base64, allow_edid_prefix);
    let dref = found(list, display_number, edid_base64, allow_edid_prefix)->0;
    choose|j: int|
        0 <= j < list.len() && (#[trigger] list[j]).dref == dref && is_meant(
            list[j],
            display_number,
            edid_base64,
            allow_edid_prefix,
        ) && (forall|k: int|
            0 <= k < j ==> !is_meant(
                #[trigger] list[k],
                display_number,
                edid_base64,
                allow_edid_prefix,
            ))
}

/// What a list of displays tells of each.
pub open spec fn models(infos: Seq<DisplayInfo>) -> Seq<DisplayModel> {
    infos.map_values(|info: DisplayInfo| info@)
}

/// The displays of a list in the terms of the service.
pub open spec fn display_models(list: Seq<RawDisplay>) -> Seq<DisplayModel> {
    list.map_values(|raw: RawDisplay| display_model(raw))
}

/// Reads the list of displays that a call of libddcutil gave.
pub fn list_displays(status: i32, displays: Option<Vec<RawDisplay>>) -> (res: Result<
    Vec<DisplayInfo>,
>)
    ensures
        match (listed(status, displays), res) {
            (Ok(list), Ok(infos)) => models(infos@) == display_models(list),
            (Err(expected), Err(error)) => error@ == expected,
            _ => false,
        },
{
    let list = match DisplayList::new(status, displays) {
        Ok(list) => list,
        Err(error) => return Err(error),
    };
    let mut result: Vec<DisplayInfo> = Vec::with_capacity(list.len());
    let mut walk = list.iter();
    loop
        invariant
            models(result@) + display_models(walk.rest()) =~= display_models(list@),
        ensures
            walk.rest().len() == 0,
        decreases walk.rest().len(),
    {
        match walk.next() {
            Some(raw) => result.push(DisplayInfo::from_raw(raw)),
            None => break,
        }
    }
    Ok(result)
}

/// Reads the list of displays that a call of libddcutil gave, for polling. A
/// missing list is refused as in `DisplayList::new`.
pub fn get_display_info_list(status: i32, displays: Option<Vec<RawDisplay>>) -> (res: Result<
    Vec<DisplayInfo>,
>)
    ensures
        match (listed(status, displays), res) {
            (Ok(list), Ok(infos)) => models(infos@) == display_models(list),
            (Err(expected), Err(error)) => error@ == expected,
            _ => false,
        },
{
    list_displays(status, displays)
}

/// An optional number in Rust's `Debug` notation.
pub open spec fn debug_number(number: Option<i64>) -> Seq<char> {
    match number {
        Some(n) => "Some("@ + decimal(n as int) + ")"@,
        None => "None"@,
    }
}

fn debug_number_text(number: Option<i64>) -> (res: String)
    ensures
        res@ == debug_number(number),
{
    match number {
        Some(n) => "Some(".to_owned().concat(decimal_text(n).as_str()).concat(")"),
        None => "None".to_owned(),
    }
}

/// What a search that fails says.
pub open spec fn not_found(
    display_number: Option<i64>,
    edid_base64: Option<Seq<char>>,
) -> ErrorModel {
    let number = match display_number {
        Some(number) => number,
        None => -1i64,
    };
    let edid = match edid_base64 {
        Some(edid) => edid,
        None => Seq::empty(),
    };
    ErrorModel::DisplayNotFound {
        display_number: number,
        edid_base64: edid,
        status: -1i64,
        message: "DisplayNumber="@ + debug_number(display_number) + " EDID="@ + debug_notation(edid)
            + " - display not found"@,
    }
}

/// What a search for a display gives, with the list that libddcutil answered.
pub open spec fn display_search(
    status: i32,
    displays: Option<Vec<RawDisplay>>,
    display_number: Option<i64>,
    edid_base64: Option<Seq<char>>,
    allow_edid_prefix: bool,
) -> std::result::Result<DisplayRef, ErrorModel> {
    match listed(status, displays) {
        Err(error) => Err(error),
        Ok(list) => if display_number is None && edid_base64 is None {
            Err(ErrorModel::MissingIdentifier)
        } else {
            match found(list, display_number, edid_base64, allow_edid_prefix) {
                Some(dref) => Ok(dref),
                None => Err(not_found(display_number, edid_base64)),
            }
        },
    }
}

/// Finds a display by number or EDID in the list that libddcutil answered. Gives the
/// reference of the display together with the list, which a caller can hold as long as
/// it uses the reference.
pub fn find_display(
    status: i32,
    displays: Option<Vec<RawDisplay>>,
    display_number: Option<i64>,
    edid_base64: Option<&str>,
    allow_edid_prefix: bool,
) -> (res: Result<(DisplayRef, DisplayList)>)
    ensures
        ({
            let search = display_search(
                status,
                displays,
                display_number,
                text_of(edid_base64),
                allow_edid_prefix,
            );
            match res {
                Ok((dref, list)) => search == Ok::<_, ErrorModel>(dref) && listed(status, displays)
                    == Ok::<_, ErrorModel>(list@),
                Err(error) => search == Err::<DisplayRef, _>(error@),
            }
        }),
        res matches Err(Error::DisplayNotFound { edid_base64: edid, message, .. }) ==> (forall|
            i: int,
        |
            0 <= i < edid@.len() ==> is_base64_char(#[trigger] edid@[i])) ==> message@
            == "DisplayNumber="@ + debug_number(display_number) + " EDID="@ + (seq!['"'] + edid@
            + seq!['"']) + " - display not found"@,
{
    let display_list = match DisplayList::new(status, displays) {
        Ok(list) => list,
        Err(error) => return Err(error),
    };
    if display_number.is_none() && edid_base64.is_none() {
        return Err(Error::MissingIdentifier);
    }
    match display_list.find_by_id(display_number, edid_base64, allow_edid_prefix) {
        Some(dref) => Ok((dref, display_list)),
        None => {
            let edid_display = match edid_base64 {
                Some(edid) => edid.to_owned(),
                None => String::new(),
            };
            let message = "DisplayNumber=".to_owned().concat(
                debug_number_text(display_number).as_str(),
            ).concat(" EDID=").concat(debug_text(edid_display.as_str()).as_str()).concat(
                " - display not found",
            );
            Err(
                Error::DisplayNotFound {
                    display_number: display_number.unwrap_or(-1),
                    edid_base64: edid_display,
                    status: -1,
                    message,
                },
            )
        },
    }
}

/// The handle that a call of libddcutil gave for a display.
pub open spec fn opened(dref: DisplayRef, status: i32, ddca_handle: usize) -> std::result::Result<
    DisplayHandle,
    ErrorModel,
> {
    if status != 0 {
        Err(ErrorModel::Status(status))
    } else {
        Ok(DisplayHandle { ddca_handle, dref })
    }
}

/// Takes the handle that a call of libddcutil gave for a display.
pub fn open_display(dref: DisplayRef, status: i32, ddca_handle: usize) -> (res: Result<
    DisplayHandle,
>)
    ensures
        outcome(res) == opened(dref, status, ddca_handle),
{
    if status != 0 {
        return Err(Error::Status(status));
    }
    Ok(DisplayHandle { ddca_handle, dref })
}

/// Tells whether libddcutil was initialized, by the status that it gave.
pub fn init(status: i32) -> (res: Result<()>)
    ensures
        outcome(res) == status_outcome(status),
{
    check_status(status)
}

/// Tells whether displays were detected again, by the status that libddcutil gave.
pub fn redetect(status: i32) -> (res: Result<()>)
    ensures
        outcome(res) == status_outcome(status),
{
    check_status(status)
}

/// The capabilities string that a call of libddcutil gave; a missing one is empty.
pub open spec fn capabilities_string(status: i32, text: Option<Vec<u8>>) -> std::result::Result<
    Seq<char>,
    ErrorModel,
> {
    if status != 0 {
        Err(ErrorModel::Status(status))
    } else {
        Ok(c_text(text, ""@))
    }
}

/// Takes the capabilities string that a call of libddcutil gave.
pub fn get_capabilities_string(status: i32, text: &Option<Vec<u8>>) -> (res: Result<String>)
    ensures
        match (capabilities_string(status, *text), res) {
            (Ok(expected), Ok(text)) => text@ == expected,
            (Err(expected), Err(error)) => error@ == expected,
            _ => false,
        },
{
    if status != 0 {
        return Err(Error::Status(status));
    }
    Ok(c_ptr_to_string(text, ""))
}

/// Takes the sleep multiplier of a display that a call of libddcutil gave.
pub fn get_sleep_multiplier(status: i32, multiplier: Double) -> (res: Result<Double>)
    ensures
        outcome(res) == (if status != 0 {
            Err(ErrorModel::Status(status))
        } else {
            Ok(multiplier)
        }),
{
    if status != 0 {
        return Err(Error::Status(status));
    }
    Ok(multiplier)
}

/// Tells whether the sleep multiplier of a display was set, by the status that
/// libddcutil gave.
pub fn set_sleep_multiplier(status: i32) -> (res: Result<()>)
    ensures
        outcome(res) == status_outcome(status),
{
    check_status(status)
}

/// The version of libddcutil, where it tells.
pub fn get_ddcutil_version(version: &Option<Vec<u8>>) -> (res: String)
    ensures
        res@ == c_text(*version, "unknown"@),
{
    c_ptr_to_string(version, "unknown")
}

} // verus!
