//! The debug messenger: what it is asked to report, which of its messages are
//! known to be wrong, and how the others are logged.

use ash::vk;
use vstd::prelude::*;
use vstd::string::StringExecFns;

use crate::driver::{
    bool32_false, max_log_level, severity_error, severity_error_bit, severity_info,
    severity_info_bit, severity_verbose, severity_verbose_bit, severity_warning,
    severity_warning_bit, type_device_address_binding, type_general, type_general_bit,
    type_performance, type_performance_bit, type_validation, type_validation_bit, version_number,
    LevelFilter, ProcessFilter,
};
use crate::extension::Extension;
use crate::names::{contains_name, is_plain, plain_text_has_no_nul, text_bytes, views, CName};
use crate::text::{
    append_hex, binary_text, decode_lossy, decoded_text, hex_text, join, join_text, texts,
};

verus! {

/// "VUID-vkCmdEndDebugUtilsLabelEXT-commandBuffer-01912".
pub const VUID_VKCMDENDDEBUGUTILSLABELEXT_COMMANDBUFFER_01912: i32 = 0x56146426;

/// "VUID-VkSwapchainCreateInfoKHR-imageExtent-01274".
pub const VUID_VKSWAPCHAINCREATEINFOKHR_IMAGEEXTENT_01274: i32 = 0x7cd0911d;

/// "VUID-VkRenderPassBeginInfo-framebuffer-04627".
pub const VUID_VKRENDERPASSBEGININFO_FRAMEBUFFER_04627: i32 = 0x45125641;

/// What the messenger's callback has to know of the layers in use.
#[derive(Debug)]
pub struct DebugUtilsMessengerUserData {
    /// How the validation layer describes itself.
    pub validation_layer_description: CName,
    /// The version of the API that the validation layer was written for.
    pub validation_layer_spec_version: u32,
    /// Whether the OBS layer is present.
    pub has_obs_layer: bool,
}

/// An object that a message is about.
#[derive(Debug)]
pub struct ObjectNameInfo {
    /// The number of the object's type.
    pub object_type: i32,
    pub object_handle: u64,
    /// The bytes of the object's name, if it was given one.
    pub object_name: Option<Vec<u8>>,
}

/// A message as the driver hands it over. Texts are the bytes that precede the
/// terminating zero; a null pointer is `None`.
#[derive(Debug)]
pub struct MessengerCallbackData {
    pub message_id_number: i32,
    pub message_id_name: Option<Vec<u8>>,
    pub message: Option<Vec<u8>>,
    /// The names of the labels that are open on the queue.
    pub queue_labels: Vec<Option<Vec<u8>>>,
    /// The names of the labels that are open on the command buffer.
    pub cmd_buf_labels: Vec<Option<Vec<u8>>>,
    pub objects: Vec<ObjectNameInfo>,
}

/// The level at which a message is logged.
#[derive(Clone, Copy, Debug, PartialEq, Eq, Structural)]
pub enum Level {
    Error,
    Warn,
    Info,
    Debug,
}

/// What is to be logged of a message.
#[derive(Debug)]
pub struct DebugReport {
    pub level: Level,
    /// The records to log, in order.
    pub lines: Vec<String>,
    /// Whether the validation canary is to be set.
    pub set_canary: bool,
}

/// The callback's answer.
#[derive(Debug)]
pub struct CallbackReply {
    /// What is to be logged, unless the message is passed over.
    pub report: Option<DebugReport>,
    /// What is returned to the driver.
    pub verdict: u32,
}

/// The texts of an object that a message is about.
#[derive(Debug)]
pub struct ObjectTexts {
    /// The object's type.
    pub kind: String,
    pub handle: u64,
    pub name: String,
}

/// The texts of a message. A list is absent where the message has no such part,
/// and may be empty where the part holds no name.
#[derive(Debug)]
pub struct MessageTexts {
    /// The types that the message falls under.
    pub kind: String,
    pub id_name: String,
    pub message: String,
    pub queues: Option<Vec<String>>,
    pub command_buffers: Option<Vec<String>>,
    pub objects: Option<Vec<ObjectTexts>>,
}

/// What a messenger is created to report.
#[derive(Clone, Copy, Debug, PartialEq, Eq, Structural)]
pub struct MessengerCreateInfo {
    pub flags: u32,
    /// The bits of the severities that are reported.
    pub message_severity: u32,
    /// The bits of the types that are reported.
    pub message_type: u32,
}

/// A messenger that is to be created. The callback data is on the heap, so that it
/// stays where the driver was told that it is.
#[derive(Debug)]
pub struct MessengerRequest {
    pub create_info: MessengerCreateInfo,
    pub callback_data: Box<DebugUtilsMessengerUserData>,
    /// The log filter of the process that the request follows, unless it follows one that
    /// was given.
    pub filter: Option<ProcessFilter>,
}

/// A messenger that was created.
#[derive(Debug)]
pub struct DebugUtils {
    /// The driver's handle of the messenger.
    pub messenger: u64,
    pub callback_data: Box<DebugUtilsMessengerUserData>,
}

/// The severities that are worth reporting under a log filter. Errors always are: a
/// messenger that reports nothing is not allowed.
pub open spec fn severity_for(level: LevelFilter) -> int {
    severity_error() + (if level.rank() >= LevelFilter::Debug.rank() {
        severity_verbose() as int
    } else {
        0
    }) + (if level.rank() >= LevelFilter::Info.rank() {
        severity_info() as int
    } else {
        0
    }) + (if level.rank() >= LevelFilter::Warn.rank() {
        severity_warning() as int
    } else {
        0
    })
}

/// What a messenger is created with under a log filter.
pub open spec fn is_create_info_for(info: MessengerCreateInfo, level: LevelFilter) -> bool {
    &&& info.flags == 0
    &&& info.message_severity == severity_for(level)
    &&& info.message_type == type_general() + type_validation() + type_performance()
}

/// Whether a request was made for the log filter that the process has set.
pub open spec fn follows_process(request: MessengerRequest) -> bool {
    request.filter matches Some(filter) && is_create_info_for(request.create_info, filter@)
}

/// Whether an instance gets a messenger: there is callback data for it, and the
/// instance has the extension.
pub open spec fn wants_messenger(
    user_data: Option<DebugUtilsMessengerUserData>,
    extensions: Seq<Seq<u8>>,
) -> bool {
    user_data is Some && extensions.contains(Extension::DebugUtils.bytes())
}

/// Whether a message is known to be wrong:
///
/// - the validation layers from 1.3.240 to 1.3.250 report a spurious error where
///   a debug range starts and ends in different command buffers;
/// - the extent of a surface that is being resized is racy by nature;
/// - the OBS layer has a fault of its own, in a version that it does not tell.
pub open spec fn is_suppressed(id: i32, user_data: DebugUtilsMessengerUserData) -> bool {
    ||| {
        &&& id == VUID_VKCMDENDDEBUGUTILSLABELEXT_COMMANDBUFFER_01912
        &&& user_data.validation_layer_description@ == text_bytes("Khronos Validation Layer"@)
        &&& version_number(1, 3, 240) <= user_data.validation_layer_spec_version
            <= version_number(1, 3, 250)
    }
    ||| id == VUID_VKSWAPCHAINCREATEINFOKHR_IMAGEEXTENT_01274
    ||| id == VUID_VKRENDERPASSBEGININFO_FRAMEBUFFER_04627 && user_data.has_obs_layer
}

/// The level of a message of the given severity. A severity that is not one of
/// the four bits counts as a warning.
pub open spec fn level_of(severity: u32) -> Level {
    if severity == severity_verbose() {
        Level::Debug
    } else if severity == severity_info() {
        Level::Info
    } else if severity == severity_error() {
        Level::Error
    } else {
        Level::Warn
    }
}

/// A name, where the bits hold the given one.
pub open spec fn name_if_set(bits: u32, bit: u32, name: Seq<char>) -> Seq<Seq<char>> {
    if bits & bit == bit {
        seq![name]
    } else {
        Seq::empty()
    }
}

/// The text of a type set: the names of its members, then the bits that have no name.
pub open spec fn message_type_text(bits: u32) -> Seq<char> {
    let unnamed = bits & 0xfffffff0;
    join_text(
        name_if_set(bits, type_general(), "GENERAL"@) + name_if_set(
            bits,
            type_validation(),
            "VALIDATION"@,
        ) + name_if_set(bits, type_performance(), "PERFORMANCE"@) + name_if_set(
            bits,
            type_device_address_binding(),
            "DEVICE_ADDRESS_BINDING"@,
        ) + (if unnamed != 0 {
            seq![binary_text(unnamed as nat)]
        } else {
            Seq::empty()
        }),
        " | "@,
    )
}

/// The text of an object type: what `{:?}` makes of the type with the given number.
pub uninterp spec fn object_type_text(number: i32) -> Seq<char>;

/// The text behind a pointer; empty where there is none.
pub open spec fn optional_text(bytes: Option<Vec<u8>>) -> Seq<char> {
    match bytes {
        Some(b) => decoded_text(b@),
        None => Seq::empty(),
    }
}

/// The names of the labels that have one, in order.
pub open spec fn label_texts(labels: Seq<Option<Vec<u8>>>) -> Seq<Seq<char>>
    decreases labels.len(),
{
    if labels.len() == 0 {
        Seq::empty()
    } else {
        match labels.last() {
            Some(b) => label_texts(labels.drop_last()).push(decoded_text(b@)),
            None => label_texts(labels.drop_last()),
        }
    }
}

/// The name of an object; a question mark where it has none.
pub open spec fn object_name_text(object: ObjectNameInfo) -> Seq<char> {
    match object.object_name {
        Some(b) => decoded_text(b@),
        None => "?"@,
    }
}

/// How an object is listed.
pub open spec fn object_entry_text(kind: Seq<char>, handle: u64, name: Seq<char>) -> Seq<char> {
    "(type: "@ + kind + ", hndl: 0x"@ + hex_text(handle as nat) + ", name: "@ + name + ")"@
}

/// How the objects of a message are listed, in order.
pub open spec fn object_entries(objects: Seq<ObjectNameInfo>) -> Seq<Seq<char>> {
    objects.map_values(
        |object: ObjectNameInfo|
            object_entry_text(
                object_type_text(object.object_type),
                object.object_handle,
                object_name_text(object),
            ),
    )
}

/// The first record of a message.
pub open spec fn headline_text(
    kind: Seq<char>,
    id_name: Seq<char>,
    id: i32,
    message: Seq<char>,
) -> Seq<char> {
    kind + " ["@ + id_name + " (0x"@ + hex_text((id as u32) as nat) + ")]\n\t"@ + message
}

/// The record of one part of a message, if the message has the part.
pub open spec fn part_lines(prefix: Seq<char>, names: Option<Seq<Seq<char>>>) -> Seq<Seq<char>> {
    match names {
        Some(n) => seq![prefix + join_text(n, ", "@)],
        None => Seq::empty(),
    }
}

/// All the records of a message.
pub open spec fn message_lines(
    headline: Seq<char>,
    queues: Option<Seq<Seq<char>>>,
    command_buffers: Option<Seq<Seq<char>>>,
    objects: Option<Seq<Seq<char>>>,
) -> Seq<Seq<char>> {
    seq![headline] + part_lines("\tqueues: "@, queues) + part_lines(
        "\tcommand buffers: "@,
        command_buffers,
    ) + part_lines("\tobjects: "@, objects)
}

/// The names of a part that is present if and only if it has members.
pub open spec fn present_if<T>(members: Seq<T>, names: Seq<Seq<char>>) -> Option<Seq<Seq<char>>> {
    if members.len() != 0 {
        Some(names)
    } else {
        None
    }
}

/// The records of a message as the driver hands it over.
pub open spec fn report_lines(message_type: u32, data: MessengerCallbackData) -> Seq<Seq<char>> {
    message_lines(
        headline_text(
            message_type_text(message_type),
            optional_text(data.message_id_name),
            data.message_id_number,
            optional_text(data.message),
        ),
        present_if(data.queue_labels@, label_texts(data.queue_labels@)),
        present_if(data.cmd_buf_labels@, label_texts(data.cmd_buf_labels@)),
        present_if(data.objects@, object_entries(data.objects@)),
    )
}

/// Whether a message is answered as it has to be.
pub open spec fn is_reply(
    reply: CallbackReply,
    panicking: bool,
    debug_assertions: bool,
    message_severity: u32,
    message_type: u32,
    callback_data: MessengerCallbackData,
    user_data: DebugUtilsMessengerUserData,
) -> bool {
    &&& reply.verdict == 0
    &&& reply.report is None <==> panicking || is_suppressed(
        callback_data.message_id_number,
        user_data,
    )
    &&& reply.report matches Some(report) ==> {
        &&& report.level == level_of(message_severity)
        &&& texts(report.lines@) == report_lines(message_type, callback_data)
        &&& report.set_canary == (debug_assertions && report.level == Level::Error)
    }
}

/// The strings of a part that may be absent.
pub open spec fn optional_texts(strings: Option<Vec<String>>) -> Option<Seq<Seq<char>>> {
    match strings {
        Some(s) => Some(texts(s@)),
        None => None,
    }
}

/// How objects with the given texts are listed, in order.
pub open spec fn entries_of(objects: Seq<ObjectTexts>) -> Seq<Seq<char>> {
    objects.map_values(|o: ObjectTexts| object_entry_text(o.kind@, o.handle, o.name@))
}

/// How objects with the given texts are listed, if the part is present.
pub open spec fn optional_entries(objects: Option<Vec<ObjectTexts>>) -> Option<Seq<Seq<char>>> {
    match objects {
        Some(o) => Some(entries_of(o@)),
        None => None,
    }
}

/// Whether the texts are those of the given objects, in order.
pub open spec fn are_object_texts(listed: Seq<ObjectTexts>, objects: Seq<ObjectNameInfo>) -> bool {
    &&& listed.len() == objects.len()
    &&& forall|i: int|
        0 <= i < objects.len() ==> {
            &&& (#[trigger] listed[i]).kind@ == object_type_text(objects[i].object_type)
            &&& listed[i].handle == objects[i].object_handle
            &&& listed[i].name@ == object_name_text(objects[i])
        }
}

/// `ash::vk::DebugUtilsMessageTypeFlagsEXT`: the text that `{:?}` makes of the set
/// with the given bits. The names of the members come in the order of their bits, then
/// the bits that have no name as one binary number, with bars in between.
#[verifier::external_body]
fn render_message_type(bits: u32) -> (text: String)
    ensures
        text@ == message_type_text(bits),
{
    format!("{:?}", vk::DebugUtilsMessageTypeFlagsEXT::from_raw(bits))
}

/// `ash::vk::ObjectType`: the text that `{:?}` makes of the type with the given
/// number. It is named, not described.
#[verifier::external_body]
fn render_object_type(number: i32) -> (text: String)
    ensures
        text@ == object_type_text(number),
{
    format!("{:?}", vk::ObjectType::from_raw(number))
}

/// Whether a message is known to be wrong.
pub fn suppresses(id: i32, user_data: &DebugUtilsMessengerUserData) -> (suppressed: bool)
    ensures
        suppressed == is_suppressed(id, *user_data),
{
    if id == VUID_VKCMDENDDEBUGUTILSLABELEXT_COMMANDBUFFER_01912 {
        let khronos = khronos_validation_layer();
        let first: u32 = vk::make_api_version(0, 1, 3, 240);
        let last: u32 = vk::make_api_version(0, 1, 3, 250);
        assert((0u32 << 29) | (1u32 << 22) | (3u32 << 12) | 240u32 == 0x4030F0u32) by (bit_vector);
        assert((0u32 << 29) | (1u32 << 22) | (3u32 << 12) | 250u32 == 0x4030FAu32) by (bit_vector);
        if user_data.validation_layer_description == khronos
            && user_data.validation_layer_spec_version >= first
            && user_data.validation_layer_spec_version <= last {
            return true;
        }
    }
    if id == VUID_VKSWAPCHAINCREATEINFOKHR_IMAGEEXTENT_01274 {
        return true;
    }
    id == VUID_VKRENDERPASSBEGININFO_FRAMEBUFFER_04627 && user_data.has_obs_layer
}

/// How the Khronos validation layer describes itself.
fn khronos_validation_layer() -> (description: CName)
    ensures
        description@ == text_bytes("Khronos Validation Layer"@),
{
    proof {
        reveal_strlit("Khronos Validation Layer");
        assert(is_plain("Khronos Validation Layer"@));
        plain_text_has_no_nul("Khronos Validation Layer"@);
    }
    CName::from_nul_free(vstd::slice::slice_to_vec("Khronos Validation Layer".as_bytes()))
}

/// The level of a message of the given severity.
pub fn severity_level(severity: u32) -> (level: Level)
    ensures
        level == level_of(severity),
{
    if severity == severity_verbose_bit() {
        Level::Debug
    } else if severity == severity_info_bit() {
        Level::Info
    } else if severity == severity_warning_bit() {
        Level::Warn
    } else if severity == severity_error_bit() {
        Level::Error
    } else {
        Level::Warn
    }
}

fn decode_optional(bytes: &Option<Vec<u8>>) -> (text: String)
    ensures
        text@ == optional_text(*bytes),
{
    match bytes {
        Some(b) => decode_lossy(b.as_slice()),
        None => String::new(),
    }
}

fn decode_labels(labels: &Vec<Option<Vec<u8>>>) -> (names: Option<Vec<String>>)
    ensures
        optional_texts(names) == present_if(labels@, label_texts(labels@)),
{
    if labels.len() == 0 {
        return None;
    }
    let mut names: Vec<String> = Vec::new();
    let mut i: usize = 0;
    while i < labels.len()
        invariant
            i <= labels@.len(),
            texts(names@) == label_texts(labels@.take(i as int)),
        decreases labels@.len() - i,
    {
        match &labels[i] {
            Some(b) => names.push(decode_lossy(b.as_slice())),
            None => {},
        }
        i += 1;
        proof {
            let now = labels@.take(i as int);
            assert(now.drop_last() =~= labels@.take(i - 1));
            assert(now.last() == labels@[i - 1]);
            assert(texts(names@) =~= label_texts(now));
        }
    }
    assert(labels@.take(labels@.len() as int) =~= labels@);
    Some(names)
}

fn decode_objects(objects: &Vec<ObjectNameInfo>) -> (listed: Option<Vec<ObjectTexts>>)
    ensures
        listed is Some <==> objects@.len() != 0,
        listed matches Some(l) ==> are_object_texts(l@, objects@),
        optional_entries(listed) == present_if(objects@, object_entries(objects@)),
{
    if objects.len() == 0 {
        return None;
    }
    let mut listed: Vec<ObjectTexts> = Vec::new();
    let mut i: usize = 0;
    while i < objects.len()
        invariant
            i <= objects@.len(),
            are_object_texts(listed@, objects@.take(i as int)),
        decreases objects@.len() - i,
    {
        let object = &objects[i];
        let name: String = match &object.object_name {
            Some(b) => decode_lossy(b.as_slice()),
            None => String::from_str("?"),
        };
        listed.push(
            ObjectTexts {
                kind: render_object_type(object.object_type),
                handle: object.object_handle,
                name,
            },
        );
        i += 1;
    }
    assert(objects@.take(objects@.len() as int) =~= objects@);
    assert(entries_of(listed@) =~= object_entries(objects@));
    Some(listed)
}

/// The texts of a message.
pub fn decode_message(message_type: u32, data: &MessengerCallbackData) -> (decoded: MessageTexts)
    ensures
        decoded.kind@ == message_type_text(message_type),
        decoded.id_name@ == optional_text(data.message_id_name),
        decoded.message@ == optional_text(data.message),
        optional_texts(decoded.queues) == present_if(
            data.queue_labels@,
            label_texts(data.queue_labels@),
        ),
        optional_texts(decoded.command_buffers) == present_if(
            data.cmd_buf_labels@,
            label_texts(data.cmd_buf_labels@),
        ),
        decoded.objects is Some <==> data.objects@.len() != 0,
        decoded.objects matches Some(listed) ==> are_object_texts(listed@, data.objects@),
        optional_entries(decoded.objects) == present_if(
            data.objects@,
            object_entries(data.objects@),
        ),
{
    MessageTexts {
        kind: render_message_type(message_type),
        id_name: decode_optional(&data.message_id_name),
        message: decode_optional(&data.message),
        queues: decode_labels(&data.queue_labels),
        command_buffers: decode_labels(&data.cmd_buf_labels),
        objects: decode_objects(&data.objects),
    }
}

fn render_part(prefix: &str, names: &Vec<String>) -> (line: String)
    ensures
        line@ == prefix@ + join_text(texts(names@), ", "@),
{
    let mut line: String = String::from_str(prefix);
    let joined: String = join(names, ", ");
    line.append(joined.as_str());
    line
}

fn render_object(object: &ObjectTexts) -> (entry: String)
    ensures
        entry@ == object_entry_text(object.kind@, object.handle, object.name@),
{
    let mut entry: String = String::from_str("(type: ");
    entry.append(object.kind.as_str());
    entry.append(", hndl: 0x");
    append_hex(&mut entry, object.handle);
    entry.append(", name: ");
    entry.append(object.name.as_str());
    entry.append(")");
    entry
}

/// The records of a message with the given texts.
pub fn render_message(message_id_number: i32, message: &MessageTexts) -> (lines: Vec<String>)
    ensures
        texts(lines@) == message_lines(
            headline_text(message.kind@, message.id_name@, message_id_number, message.message@),
            optional_texts(message.queues),
            optional_texts(message.command_buffers),
            optional_entries(message.objects),
        ),
{
    let mut headline: String = String::from_str(message.kind.as_str());
    headline.append(" [");
    headline.append(message.id_name.as_str());
    headline.append(" (0x");
    append_hex(&mut headline, (message_id_number as u32) as u64);
    headline.append(")]\n\t");
    headline.append(message.message.as_str());

    let mut lines: Vec<String> = Vec::new();
    lines.push(headline);
    if let Some(names) = &message.queues {
        lines.push(render_part("\tqueues: ", names));
    }
    if let Some(names) = &message.command_buffers {
        lines.push(render_part("\tcommand buffers: ", names));
    }
    if let Some(objects) = &message.objects {
        let mut entries: Vec<String> = Vec::new();
        let mut i: usize = 0;
        while i < objects.len()
            invariant
                i <= objects@.len(),
                texts(entries@) == entries_of(objects@).take(i as int),
            decreases objects@.len() - i,
        {
            let ghost before = entries@;
            entries.push(render_object(&objects[i]));
            i += 1;
            proof {
                let now = entries_of(objects@).take(i as int);
                assert(now =~= entries_of(objects@).take(i - 1).push(now.last()));
                assert(entries@.drop_last() =~= before);
                assert(texts(entries@) =~= texts(before).push(now.last()));
            }
        }
        assert(texts(entries@) =~= entries_of(objects@));
        lines.push(render_part("\tobjects: ", &entries));
    }
    assert(texts(lines@) =~= message_lines(
        headline_text(message.kind@, message.id_name@, message_id_number, message.message@),
        optional_texts(message.queues),
        optional_texts(message.command_buffers),
        optional_entries(message.objects),
    ));
    lines
}

/// What is done with a message. A thread that is panicking reports nothing, nor is
/// a message reported that is known to be wrong. The driver is always told to go on.
pub fn debug_utils_messenger_callback(
    panicking: bool,
    debug_assertions: bool,
    message_severity: u32,
    message_type: u32,
    callback_data: &MessengerCallbackData,
    user_data: &DebugUtilsMessengerUserData,
) -> (reply: CallbackReply)
    ensures
        is_reply(
            reply,
            panicking,
            debug_assertions,
            message_severity,
            message_type,
            *callback_data,
            *user_data,
        ),
{
    if panicking || suppresses(callback_data.message_id_number, user_data) {
        return CallbackReply { report: None, verdict: bool32_false() };
    }
    let level: Level = severity_level(message_severity);
    let texts: MessageTexts = decode_message(message_type, callback_data);
    let lines: Vec<String> = render_message(callback_data.message_id_number, &texts);
    CallbackReply {
        report: Some(
            DebugReport { level, lines, set_canary: debug_assertions && level == Level::Error },
        ),
        verdict: bool32_false(),
    }
}

/// What a messenger is created with under a log filter.
pub fn messenger_create_info(level: LevelFilter) -> (info: MessengerCreateInfo)
    ensures
        is_create_info_for(info, level),
{
    let mut severity: u32 = severity_error_bit();
    if level.at_least(LevelFilter::Debug) {
        severity = severity | severity_verbose_bit();
    }
    if level.at_least(LevelFilter::Info) {
        severity = severity | severity_info_bit();
    }
    if level.at_least(LevelFilter::Warn) {
        severity = severity | severity_warning_bit();
    }
    assert(0x1000u32 | 0x1u32 == 0x1001u32) by (bit_vector);
    assert(0x1001u32 | 0x10u32 == 0x1011u32) by (bit_vector);
    assert(0x1000u32 | 0x10u32 == 0x1010u32) by (bit_vector);
    assert(0x1011u32 | 0x100u32 == 0x1111u32) by (bit_vector);
    assert(0x1010u32 | 0x100u32 == 0x1110u32) by (bit_vector);
    assert(0x1000u32 | 0x100u32 == 0x1100u32) by (bit_vector);
    let message_type: u32 = type_general_bit() | type_validation_bit() | type_performance_bit();
    assert(0x1u32 | 0x2u32 | 0x4u32 == 0x7u32) by (bit_vector);
    MessengerCreateInfo { flags: 0, message_severity: severity, message_type }
}

/// The messenger that an instance gets under a log filter.
pub fn request_messenger_at(
    level: LevelFilter,
    user_data: Option<DebugUtilsMessengerUserData>,
    extensions: &Vec<CName>,
) -> (request: Option<MessengerRequest>)
    ensures
        request is Some <==> wants_messenger(user_data, views(extensions@)),
        request matches Some(r) ==> *r.callback_data == user_data->0 && is_create_info_for(
            r.create_info,
            level,
        ),
{
    match user_data {
        Some(data) => {
            if contains_name(extensions.as_slice(), &Extension::DebugUtils.name()) {
                Some(
                    MessengerRequest {
                        create_info: messenger_create_info(level),
                        callback_data: Box::new(data),
                        filter: None,
                    },
                )
            } else {
                None
            }
        },
        None => None,
    }
}

/// The messenger that an instance gets under the log filter of the process, whatever
/// that is.
pub fn request_messenger(
    user_data: Option<DebugUtilsMessengerUserData>,
    extensions: &Vec<CName>,
) -> (request: Option<MessengerRequest>)
    ensures
        request is Some <==> wants_messenger(user_data, views(extensions@)),
        request matches Some(r) ==> *r.callback_data == user_data->0 && exists|level: LevelFilter|
            is_create_info_for(r.create_info, level),
        request matches Some(r) ==> follows_process(r),
{
    let filter: ProcessFilter = max_log_level();
    match request_messenger_at(filter.level(), user_data, extensions) {
        Some(request) => {
            let followed = MessengerRequest {
                create_info: request.create_info,
                callback_data: request.callback_data,
                filter: Some(filter),
            };
            assert(follows_process(followed));
            Some(followed)
        },
        None => None,
    }
}

/// A messenger always reports errors, so what it is created with is never empty.
pub proof fn messenger_reports_errors(info: MessengerCreateInfo, level: LevelFilter)
    requires
        is_create_info_for(info, level),
    ensures
        info.message_severity & severity_error() == severity_error(),
        info.message_severity != 0,
        info.message_type != 0,
{
    let s = info.message_severity;
    assert(s == 0x1000u32 || s == 0x1100u32 || s == 0x1110u32 || s == 0x1111u32);
    assert(s & 0x1000u32 == 0x1000u32) by (bit_vector)
        requires
            s == 0x1000u32 || s == 0x1100u32 || s == 0x1110u32 || s == 0x1111u32,
    ;
}

/// Under a filter that lets more through, a messenger reports at least as much.
pub proof fn messenger_severity_is_monotone(
    narrow: MessengerCreateInfo,
    narrow_level: LevelFilter,
    wide: MessengerCreateInfo,
    wide_level: LevelFilter,
)
    requires
        is_create_info_for(narrow, narrow_level),
        is_create_info_for(wide, wide_level),
        narrow_level.rank() <= wide_level.rank(),
    ensures
        narrow.message_severity & wide.message_severity == narrow.message_severity,
{
    let (n, w) = (narrow.message_severity, wide.message_severity);
    assert(n <= w);
    assert(n == 0x1000u32 || n == 0x1100u32 || n == 0x1110u32 || n == 0x1111u32);
    assert(w == 0x1000u32 || w == 0x1100u32 || w == 0x1110u32 || w == 0x1111u32);
    assert(n & w == n) by (bit_vector)
        requires
            n <= w,
            n == 0x1000u32 || n == 0x1100u32 || n == 0x1110u32 || n == 0x1111u32,
            w == 0x1000u32 || w == 0x1100u32 || w == 0x1110u32 || w == 0x1111u32,
    ;
}

} // verus!
