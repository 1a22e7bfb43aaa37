//! Messages of the validation layers: which are passed over, and how the others read.

use vstd::prelude::*;
use vstd::utf8::{decode_utf8, encode_utf8, valid_utf8};

use crate::debug::{
    headline_text, is_create_info_for, is_reply, is_suppressed, label_texts, level_of,
    message_lines, object_entries, object_entry_text, object_name_text, object_type_text,
    optional_entries, optional_text, optional_texts, report_lines, wants_messenger, CallbackReply,
    DebugUtilsMessengerUserData, Level, MessengerCallbackData, MessengerCreateInfo, ObjectNameInfo,
    ObjectTexts,
};
use crate::driver::LevelFilter;
use crate::text::{decoded_text, hex_text, join_text, lossy_text, texts};

verus! {

/// A message whose number is none of the three that are known is never passed over,
/// whatever layers there are.
pub proof fn unknown_messages_are_heard(id: i32, user_data: DebugUtilsMessengerUserData)
    requires
        id != 0x56146426,
        id != 0x7cd0911d,
        id != 0x45125641,
    ensures
        !is_suppressed(id, user_data),
{
}

/// The racy extent of a surface is passed over, whatever layers there are.
pub proof fn racy_extent_is_passed_over(user_data: DebugUtilsMessengerUserData)
    ensures
        is_suppressed(0x7cd0911d, user_data),
{
}

/// The fault of the OBS layer is passed over if and only if that layer is there, whatever
/// is known of the validation layer.
pub proof fn obs_fault_is_passed_over_with_its_layer(user_data: DebugUtilsMessengerUserData)
    ensures
        is_suppressed(0x45125641, user_data) <==> user_data.has_obs_layer,
{
}

/// The spurious end of a label is passed over if and only if it comes from the Khronos
/// layer in one of the versions 1.3.240 to 1.3.250, whether the OBS layer is there or not.
pub proof fn spurious_label_is_passed_over_from_faulty_layers(
    user_data: DebugUtilsMessengerUserData,
)
    ensures
        is_suppressed(0x56146426, user_data) <==> {
            &&& user_data.validation_layer_description@ == encode_utf8(
                "Khronos Validation Layer"@,
            )
            &&& 0x4030f0 <= user_data.validation_layer_spec_version
            &&& user_data.validation_layer_spec_version <= 0x4030fa
        },
{
}

/// Where the validation layer is not a faulty one, a message is passed over if and only if
/// it is about the racy extent, or it is the fault of the OBS layer and that layer is there.
pub proof fn sound_validation_is_heard(id: i32, user_data: DebugUtilsMessengerUserData)
    requires
        user_data.validation_layer_description@ != encode_utf8("Khronos Validation Layer"@)
            || user_data.validation_layer_spec_version < 0x4030f0
            || user_data.validation_layer_spec_version > 0x4030fa,
    ensures
        is_suppressed(id, user_data) <==> {
            ||| id == 0x7cd0911d
            ||| id == 0x45125641 && user_data.has_obs_layer
        },
{
}

/// Each severity has its level, and whatever is none of the four bits is a warning.
pub proof fn severities_have_their_levels(severity: u32)
    ensures
        level_of(severity) == Level::Debug <==> severity == 0x1,
        level_of(severity) == Level::Info <==> severity == 0x10,
        level_of(severity) == Level::Error <==> severity == 0x1000,
        level_of(severity) == Level::Warn <==> severity != 0x1 && severity != 0x10 && severity
            != 0x1000,
{
}

/// A text that a driver writes as UTF-8 is read as it was written.
pub proof fn written_texts_are_read(text: Seq<char>)
    ensures
        decoded_text(encode_utf8(text)) == text,
{
    vstd::utf8::encode_utf8_valid_utf8(text);
    vstd::utf8::encode_utf8_decode_utf8(text);
}

/// Bytes are decoded where they are valid UTF-8, and left to the lossy decoding where they
/// are not.
pub proof fn bytes_are_decoded_if_they_can_be(bytes: Seq<u8>)
    ensures
        valid_utf8(bytes) ==> decoded_text(bytes) == decode_utf8(bytes),
        !valid_utf8(bytes) ==> decoded_text(bytes) == lossy_text(bytes),
{
}

/// What a null pointer stands for: no text for a message, a question mark for an object.
pub proof fn null_pointers_are_read(bytes: Option<Vec<u8>>, object: ObjectNameInfo)
    ensures
        bytes is None ==> optional_text(bytes).len() == 0,
        bytes matches Some(b) ==> optional_text(bytes) == decoded_text(b@),
        object.object_name is None ==> object_name_text(object) == "?"@,
        object.object_name matches Some(b) ==> object_name_text(object) == decoded_text(b@),
{
}

/// The value of a text of hexadecimal digits.
pub open spec fn hex_value(text: Seq<char>) -> int
    decreases text.len(),
{
    if text.len() == 0 {
        0
    } else {
        let digit = text.last();
        let value = if '0' <= digit <= '9' {
            digit as int - '0' as int
        } else {
            digit as int - 'a' as int + 10
        };
        hex_value(text.drop_last()) * 16 + value
    }
}

/// A number in hexadecimal reads back as the number. It is made of lower-case digits, and
/// starts with a zero only where it is zero.
pub proof fn hexadecimal_reads_back(n: nat)
    ensures
        hex_value(hex_text(n)) == n,
        hex_text(n).len() > 0,
        hex_text(n)[0] == '0' ==> n == 0 && hex_text(n).len() == 1,
        forall|i: int|
            0 <= i < hex_text(n).len() ==> {
                ||| '0' <= #[trigger] hex_text(n)[i] <= '9'
                ||| 'a' <= hex_text(n)[i] <= 'f'
            },
    decreases n,
{
    if n >= 16 {
        hexadecimal_reads_back(n / 16);
        assert(hex_text(n).drop_last() =~= hex_text(n / 16));
    } else {
        assert(hex_text(n).drop_last() =~= Seq::empty());
        assert(hex_value(Seq::empty()) == 0);
    }
}

/// Joined texts follow each other in order, with the separator between any two and
/// nowhere else.
pub proof fn joining_puts_separators_between(
    first: Seq<Seq<char>>,
    second: Seq<Seq<char>>,
    separator: Seq<char>,
    single: Seq<char>,
)
    ensures
        join_text(Seq::empty(), separator).len() == 0,
        join_text(seq![single], separator) == single,
        first.len() > 0 && second.len() > 0 ==> join_text(first + second, separator) == join_text(
            first,
            separator,
        ) + separator + join_text(second, separator),
    decreases second.len(),
{
    if first.len() > 0 && second.len() > 0 {
        let all = first + second;
        assert(all.last() == second.last());
        assert(all.drop_last() =~= first + second.drop_last());
        if second.len() > 1 {
            joining_puts_separators_between(first, second.drop_last(), separator, single);
            assert(join_text(all, separator) =~= join_text(first, separator) + separator
                + join_text(second, separator));
        } else {
            assert(first + second.drop_last() =~= first);
        }
    }
}

/// Labels are listed in order. One with a name is listed by it, one without is left out.
pub proof fn labels_are_listed_in_order(
    first: Seq<Option<Vec<u8>>>,
    second: Seq<Option<Vec<u8>>>,
    label: Option<Vec<u8>>,
)
    ensures
        label_texts(first + second) == label_texts(first) + label_texts(second),
        label matches Some(b) ==> label_texts(seq![label]) == seq![decoded_text(b@)],
        label is None ==> label_texts(seq![label]).len() == 0,
        label_texts(Seq::empty()).len() == 0,
    decreases second.len(),
{
    let empty = Seq::<Option<Vec<u8>>>::empty();
    assert(seq![label].drop_last() =~= empty);
    assert(label_texts(empty) =~= Seq::empty());
    if label is Some {
        assert(label_texts(seq![label]) =~= seq![decoded_text(label->0@)]);
    }
    if second.len() > 0 {
        let all = first + second;
        assert(all.last() == second.last());
        assert(all.drop_last() =~= first + second.drop_last());
        labels_are_listed_in_order(first, second.drop_last(), label);
        assert(label_texts(all) =~= label_texts(first) + label_texts(second));
    } else {
        assert(first + second =~= first);
    }
}

/// How an object reads, wherever it is listed.
pub proof fn objects_read_like_this(
    objects: Seq<ObjectNameInfo>,
    i: int,
    kind: Seq<char>,
    handle: u64,
    name: Seq<char>,
)
    requires
        0 <= i < objects.len(),
    ensures
        object_entry_text(kind, handle, name) == "(type: "@ + kind + ", hndl: 0x"@ + hex_text(
            handle as nat,
        ) + ", name: "@ + name + ")"@,
        object_entries(objects).len() == objects.len(),
        object_entries(objects)[i] == "(type: "@ + object_type_text(objects[i].object_type)
            + ", hndl: 0x"@ + hex_text(objects[i].object_handle as nat) + ", name: "@
            + object_name_text(objects[i]) + ")"@,
{
}

/// Records come in this order, each part in one record of its own and only if it is there.
pub proof fn records_come_in_order(
    headline: Seq<char>,
    queues: Option<Seq<Seq<char>>>,
    command_buffers: Option<Seq<Seq<char>>>,
    objects: Option<Seq<Seq<char>>>,
)
    ensures
        ({
            let lines = message_lines(headline, queues, command_buffers, objects);
            let buffers_at = 1 + if queues is Some { 1int } else { 0 };
            let objects_at = buffers_at + if command_buffers is Some { 1int } else { 0 };
            &&& lines.len() == objects_at + if objects is Some { 1int } else { 0 }
            &&& lines[0] == headline
            &&& queues matches Some(q) ==> lines[1] == "\tqueues: "@ + join_text(q, ", "@)
            &&& command_buffers matches Some(c) ==> lines[buffers_at] == "\tcommand buffers: "@
                + join_text(c, ", "@)
            &&& objects matches Some(o) ==> lines[objects_at] == "\tobjects: "@ + join_text(
                o,
                ", "@,
            )
        }),
{
}

/// The first record tells the types, the name and the number of the message and its text.
pub proof fn headlines_read_like_this(
    kind: Seq<char>,
    id_name: Seq<char>,
    id: i32,
    message: Seq<char>,
)
    ensures
        headline_text(kind, id_name, id, message) == kind + " ["@ + id_name + " (0x"@ + hex_text(
            if id >= 0 {
                id as nat
            } else {
                (id + 0x1_0000_0000) as nat
            },
        ) + ")]\n\t"@ + message,
{
    assert(id >= 0 ==> id as u32 == id) by (bit_vector);
    assert(id < 0 ==> id as u32 == id + 0x1_0000_0000) by (bit_vector);
}

/// The records of a message are those of its own parts: its number, name and text, and the
/// labels and objects that it has any of.
pub proof fn reports_tell_the_message(message_type: u32, data: MessengerCallbackData)
    ensures
        ({
            let lines = report_lines(message_type, data);
            let buffers_at = 1 + if data.queue_labels@.len() > 0 { 1int } else { 0 };
            let objects_at = buffers_at + if data.cmd_buf_labels@.len() > 0 { 1int } else { 0 };
            &&& lines.len() == objects_at + if data.objects@.len() > 0 { 1int } else { 0 }
            &&& lines[0] == headline_text(
                crate::debug::message_type_text(message_type),
                optional_text(data.message_id_name),
                data.message_id_number,
                optional_text(data.message),
            )
            &&& data.queue_labels@.len() > 0 ==> lines[1] == "\tqueues: "@ + join_text(
                label_texts(data.queue_labels@),
                ", "@,
            )
            &&& data.cmd_buf_labels@.len() > 0 ==> lines[buffers_at] == "\tcommand buffers: "@
                + join_text(label_texts(data.cmd_buf_labels@), ", "@)
            &&& data.objects@.len() > 0 ==> lines[objects_at] == "\tobjects: "@ + join_text(
                object_entries(data.objects@),
                ", "@,
            )
        }),
{
}

/// How a message is answered. The driver is always told to go on. The message is reported
/// unless the thread is panicking or the message is one of those that are passed over, at
/// the level of its severity. The canary is set for a reported error in a debug build, and
/// for nothing else.
pub proof fn messages_are_answered_like_this(
    reply: CallbackReply,
    panicking: bool,
    debug_assertions: bool,
    severity: u32,
    message_type: u32,
    data: MessengerCallbackData,
    user_data: DebugUtilsMessengerUserData,
)
    requires
        is_reply(
            reply,
            panicking,
            debug_assertions,
            severity,
            message_type,
            data,
            user_data,
        ),
    ensures
        reply.verdict == 0,
        panicking ==> reply.report is None,
        !panicking && data.message_id_number != 0x56146426 && data.message_id_number != 0x7cd0911d
            && data.message_id_number != 0x45125641 ==> reply.report is Some,
        !panicking && data.message_id_number == 0x45125641 && !user_data.has_obs_layer
            ==> reply.report is Some,
        data.message_id_number == 0x45125641 && user_data.has_obs_layer ==> reply.report is None,
        data.message_id_number == 0x7cd0911d ==> reply.report is None,
        !panicking && data.message_id_number == 0x56146426 ==> (reply.report is None <==> {
            &&& user_data.validation_layer_description@ == encode_utf8(
                "Khronos Validation Layer"@,
            )
            &&& 0x4030f0 <= user_data.validation_layer_spec_version
            &&& user_data.validation_layer_spec_version <= 0x4030fa
        }),
        reply.report matches Some(report) ==> {
            &&& severity == 0x1000 ==> report.level == Level::Error
            &&& severity == 0x10 ==> report.level == Level::Info
            &&& severity == 0x1 ==> report.level == Level::Debug
            &&& severity != 0x1000 && severity != 0x10 && severity != 0x1 ==> report.level
                == Level::Warn
            &&& report.set_canary <==> debug_assertions && severity == 0x1000
            &&& texts(report.lines@) == report_lines(message_type, data)
        },
{
}

/// A list of strings is seen string by string.
pub proof fn strings_are_seen_one_by_one(strings: Seq<String>)
    ensures
        texts(strings).len() == strings.len(),
        forall|i: int| 0 <= i < strings.len() ==> #[trigger] texts(strings)[i] == strings[i]@,
{
}

/// The parts of a message that may be absent are seen as they are.
pub proof fn parts_are_seen_as_they_are(
    strings: Option<Vec<String>>,
    objects: Option<Vec<ObjectTexts>>,
    i: int,
)
    ensures
        optional_texts(strings) is Some <==> strings is Some,
        strings matches Some(s) ==> optional_texts(strings)->0 == texts(s@),
        optional_entries(objects) is Some <==> objects is Some,
        objects matches Some(o) ==> optional_entries(objects)->0.len() == o@.len(),
        objects is Some && 0 <= i < objects->0@.len() ==> optional_entries(objects)->0[i]
            == object_entry_text(
            objects->0@[i].kind@,
            objects->0@[i].handle,
            objects->0@[i].name@,
        ),
{
}

/// Filters let through more from each to the next.
pub proof fn filters_grow()
    ensures
        LevelFilter::Off.rank() < LevelFilter::Error.rank(),
        LevelFilter::Error.rank() < LevelFilter::Warn.rank(),
        LevelFilter::Warn.rank() < LevelFilter::Info.rank(),
        LevelFilter::Info.rank() < LevelFilter::Debug.rank(),
        LevelFilter::Debug.rank() < LevelFilter::Trace.rank(),
{
}

/// A messenger reports errors always, and warnings, infos and verbose messages if and only
/// if the log filter lets them through. It reports the three types, and nothing else is
/// asked of it.
pub proof fn messengers_follow_the_filter(info: MessengerCreateInfo, level: LevelFilter)
    requires
        is_create_info_for(info, level),
    ensures
        info.flags == 0,
        info.message_type == 0x7,
        info.message_severity & 0x1000 != 0,
        info.message_severity & 0x100 != 0 <==> {
            ||| level == LevelFilter::Warn
            ||| level == LevelFilter::Info
            ||| level == LevelFilter::Debug
            ||| level == LevelFilter::Trace
        },
        info.message_severity & 0x10 != 0 <==> {
            ||| level == LevelFilter::Info
            ||| level == LevelFilter::Debug
            ||| level == LevelFilter::Trace
        },
        info.message_severity & 0x1 != 0 <==> {
            ||| level == LevelFilter::Debug
            ||| level == LevelFilter::Trace
        },
        info.message_severity & 0xffffeeee == 0,
{
    let s = info.message_severity;
    assert(0x1000u32 & 0x1000 == 0x1000 && 0x1000u32 & 0x100 == 0 && 0x1000u32 & 0x10 == 0
        && 0x1000u32 & 0x1 == 0 && 0x1000u32 & 0xffffeeee == 0) by (bit_vector);
    assert(0x1100u32 & 0x1000 == 0x1000 && 0x1100u32 & 0x100 == 0x100 && 0x1100u32 & 0x10 == 0
        && 0x1100u32 & 0x1 == 0 && 0x1100u32 & 0xffffeeee == 0) by (bit_vector);
    assert(0x1110u32 & 0x1000 == 0x1000 && 0x1110u32 & 0x100 == 0x100 && 0x1110u32 & 0x10 == 0x10
        && 0x1110u32 & 0x1 == 0 && 0x1110u32 & 0xffffeeee == 0) by (bit_vector);
    assert(0x1111u32 & 0x1000 == 0x1000 && 0x1111u32 & 0x100 == 0x100 && 0x1111u32 & 0x10 == 0x10
        && 0x1111u32 & 0x1 == 0x1 && 0x1111u32 & 0xffffeeee == 0) by (bit_vector);
    assert(s == 0x1000 || s == 0x1100 || s == 0x1110 || s == 0x1111);
}

/// A messenger is wanted if and only if there is callback data and the instance has the
/// extension.
pub proof fn messengers_need_data_and_extension(
    user_data: Option<DebugUtilsMessengerUserData>,
    extensions: Seq<Seq<u8>>,
)
    ensures
        wants_messenger(user_data, extensions) <==> user_data is Some && extensions.contains(
            encode_utf8("VK_EXT_debug_utils"@),
        ),
{
}

} // verus!
