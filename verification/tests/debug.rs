use ash::vk;
use vulkan_instance::debug::{
    debug_utils_messenger_callback, decode_message, messenger_create_info, render_message,
    request_messenger, request_messenger_at, severity_level, suppresses,
    DebugUtilsMessengerUserData, Level, MessageTexts, MessengerCallbackData, ObjectNameInfo,
    ObjectTexts, VUID_VKCMDENDDEBUGUTILSLABELEXT_COMMANDBUFFER_01912,
    VUID_VKRENDERPASSBEGININFO_FRAMEBUFFER_04627, VUID_VKSWAPCHAINCREATEINFOKHR_IMAGEEXTENT_01274,
};
use vulkan_instance::driver::LevelFilter;
use vulkan_instance::extension::Extension;
use vulkan_instance::names::CName;
use vulkan_instance::text::{append_hex, join};

const VERBOSE: u32 = 0x1;
const INFO: u32 = 0x10;
const WARNING: u32 = 0x100;
const ERROR: u32 = 0x1000;

fn user_data(description: &str, spec_version: u32, has_obs_layer: bool) -> DebugUtilsMessengerUserData {
    DebugUtilsMessengerUserData {
        validation_layer_description: CName::new(description.as_bytes().to_vec()).unwrap(),
        validation_layer_spec_version: spec_version,
        has_obs_layer,
    }
}

fn khronos(patch: u32) -> DebugUtilsMessengerUserData {
    user_data("Khronos Validation Layer", vk::make_api_version(0, 1, 3, patch), false)
}

fn message(id: i32) -> MessengerCallbackData {
    MessengerCallbackData {
        message_id_number: id,
        message_id_name: Some(b"VUID-x".to_vec()),
        message: Some(b"broken".to_vec()),
        queue_labels: Vec::new(),
        cmd_buf_labels: Vec::new(),
        objects: Vec::new(),
    }
}

#[test]
fn faulty_layers_end_label_message_is_suppressed() {
    let id = VUID_VKCMDENDDEBUGUTILSLABELEXT_COMMANDBUFFER_01912;
    assert!(!suppresses(id, &khronos(239)));
    assert!(suppresses(id, &khronos(240)));
    assert!(suppresses(id, &khronos(245)));
    assert!(suppresses(id, &khronos(250)));
    assert!(!suppresses(id, &khronos(251)));
}

#[test]
fn end_label_message_of_another_layer_is_heard() {
    let other = user_data("Another Layer", vk::make_api_version(0, 1, 3, 245), false);
    assert!(!suppresses(VUID_VKCMDENDDEBUGUTILSLABELEXT_COMMANDBUFFER_01912, &other));
}

#[test]
fn racy_extent_message_is_suppressed() {
    assert!(suppresses(VUID_VKSWAPCHAINCREATEINFOKHR_IMAGEEXTENT_01274, &khronos(1)));
}

#[test]
fn framebuffer_message_is_suppressed_with_the_obs_layer_only() {
    let id = VUID_VKRENDERPASSBEGININFO_FRAMEBUFFER_04627;
    assert!(!suppresses(id, &user_data("x", 0, false)));
    assert!(suppresses(id, &user_data("x", 0, true)));
}

#[test]
fn other_messages_are_heard() {
    assert!(!suppresses(0, &khronos(245)));
    assert!(!suppresses(-1, &user_data("x", 0, true)));
}

#[test]
fn message_numbers_are_those_of_the_layers() {
    assert_eq!(VUID_VKCMDENDDEBUGUTILSLABELEXT_COMMANDBUFFER_01912, 0x56146426);
    assert_eq!(VUID_VKSWAPCHAINCREATEINFOKHR_IMAGEEXTENT_01274, 0x7cd0911d);
    assert_eq!(VUID_VKRENDERPASSBEGININFO_FRAMEBUFFER_04627, 0x45125641);
}

#[test]
fn severities_have_levels() {
    assert_eq!(severity_level(VERBOSE), Level::Debug);
    assert_eq!(severity_level(INFO), Level::Info);
    assert_eq!(severity_level(WARNING), Level::Warn);
    assert_eq!(severity_level(ERROR), Level::Error);
    assert_eq!(severity_level(0), Level::Warn);
    assert_eq!(severity_level(ERROR | WARNING), Level::Warn);
    assert_eq!(severity_level(vk::DebugUtilsMessageSeverityFlagsEXT::ERROR.as_raw()), Level::Error);
}

#[test]
fn plain_message_has_one_record() {
    let reply = debug_utils_messenger_callback(false, true, WARNING, 0x2, &message(0x1f), &khronos(1));
    assert_eq!(reply.verdict, vk::FALSE);
    let report = reply.report.unwrap();
    assert_eq!(report.level, Level::Warn);
    assert!(!report.set_canary);
    assert_eq!(report.lines, vec!["VALIDATION [VUID-x (0x1f)]\n\tbroken".to_string()]);
}

#[test]
fn types_are_named_in_order() {
    let headline = |message_type: u32| {
        let reply = debug_utils_messenger_callback(
            false,
            false,
            ERROR,
            message_type,
            &message(0x1f),
            &khronos(1),
        );
        reply.report.unwrap().lines.remove(0)
    };
    assert_eq!(headline(0x0), " [VUID-x (0x1f)]\n\tbroken");
    assert_eq!(
        headline(0xf),
        "GENERAL | VALIDATION | PERFORMANCE | DEVICE_ADDRESS_BINDING [VUID-x (0x1f)]\n\tbroken"
    );
    assert_eq!(headline(0x50), "1010000 [VUID-x (0x1f)]\n\tbroken");
    assert_eq!(headline(0x14), "PERFORMANCE | 10000 [VUID-x (0x1f)]\n\tbroken");
}

#[test]
fn full_message_has_four_records() {
    let mut data = message(-1);
    data.queue_labels = vec![Some(b"frame".to_vec()), None, Some(b"pass".to_vec())];
    data.cmd_buf_labels = vec![None];
    data.objects = vec![
        ObjectNameInfo {
            object_type: vk::ObjectType::BUFFER.as_raw(),
            object_handle: 0xdead_beef_0000_0001,
            object_name: Some(b"vertices".to_vec()),
        },
        ObjectNameInfo {
            object_type: vk::ObjectType::IMAGE.as_raw(),
            object_handle: 0,
            object_name: None,
        },
    ];
    let reply = debug_utils_messenger_callback(false, false, ERROR, 0x3, &data, &khronos(1));
    let report = reply.report.unwrap();
    assert_eq!(
        report.lines,
        vec![
            "GENERAL | VALIDATION [VUID-x (0xffffffff)]\n\tbroken".to_string(),
            "\tqueues: frame, pass".to_string(),
            "\tcommand buffers: ".to_string(),
            "\tobjects: (type: BUFFER, hndl: 0xdeadbeef00000001, name: vertices), \
             (type: IMAGE, hndl: 0x0, name: ?)"
                .to_string(),
        ]
    );
}

#[test]
fn objects_keep_their_texts() {
    let mut data = message(0);
    assert!(decode_message(0x1, &data).objects.is_none());
    data.objects = vec![
        ObjectNameInfo {
            object_type: vk::ObjectType::QUEUE.as_raw(),
            object_handle: 0x2a,
            object_name: Some(b"main".to_vec()),
        },
        ObjectNameInfo {
            object_type: vk::ObjectType::FENCE.as_raw(),
            object_handle: 0x2b,
            object_name: None,
        },
    ];
    let objects = decode_message(0x1, &data).objects.unwrap();
    let listed: Vec<(&str, u64, &str)> = objects
        .iter()
        .map(|object| (object.kind.as_str(), object.handle, object.name.as_str()))
        .collect();
    assert_eq!(listed, vec![("QUEUE", 0x2a, "main"), ("FENCE", 0x2b, "?")]);
}

#[test]
fn missing_texts_are_empty() {
    let mut data = message(7);
    data.message_id_name = None;
    data.message = None;
    let texts = decode_message(0x4, &data);
    assert_eq!(texts.kind, "PERFORMANCE");
    assert_eq!(texts.id_name, "");
    assert_eq!(texts.message, "");
    assert!(texts.queues.is_none());
    assert!(texts.command_buffers.is_none());
    assert!(texts.objects.is_none());
}

#[test]
fn bytes_that_are_no_text_are_replaced() {
    let mut data = message(7);
    data.message = Some(vec![b'a', 0xff, b'b']);
    assert_eq!(decode_message(0x1, &data).message, "a\u{fffd}b");
    data.message = Some("gr\u{fc}n".as_bytes().to_vec());
    assert_eq!(decode_message(0x1, &data).message, "gr\u{fc}n");
}

#[test]
fn records_are_rendered_from_texts() {
    let texts = MessageTexts {
        kind: "KIND".to_string(),
        id_name: "ID".to_string(),
        message: "text".to_string(),
        queues: None,
        command_buffers: Some(vec!["a".to_string(), "b".to_string(), "c".to_string()]),
        objects: Some(vec![ObjectTexts {
            kind: "T".to_string(),
            handle: 0x10,
            name: "n".to_string(),
        }]),
    };
    assert_eq!(
        render_message(0x7cd0911d, &texts),
        vec![
            "KIND [ID (0x7cd0911d)]\n\ttext".to_string(),
            "\tcommand buffers: a, b, c".to_string(),
            "\tobjects: (type: T, hndl: 0x10, name: n)".to_string(),
        ]
    );
}

#[test]
fn error_sets_the_canary_in_debug_builds() {
    let data = message(1);
    let reply = debug_utils_messenger_callback(false, true, ERROR, 0x2, &data, &khronos(1));
    assert!(reply.report.unwrap().set_canary);
    let reply = debug_utils_messenger_callback(false, false, ERROR, 0x2, &data, &khronos(1));
    assert!(!reply.report.unwrap().set_canary);
}

#[test]
fn panicking_thread_reports_nothing() {
    let reply = debug_utils_messenger_callback(true, true, ERROR, 0x2, &message(1), &khronos(1));
    assert!(reply.report.is_none());
    assert_eq!(reply.verdict, 0);
}

#[test]
fn suppressed_message_is_not_reported() {
    let data = message(VUID_VKSWAPCHAINCREATEINFOKHR_IMAGEEXTENT_01274);
    let reply = debug_utils_messenger_callback(false, true, ERROR, 0x2, &data, &khronos(1));
    assert!(reply.report.is_none());
    assert_eq!(reply.verdict, 0);
}

#[test]
fn messenger_severity_follows_the_filter() {
    let severities = [
        (LevelFilter::Off, 0x1000),
        (LevelFilter::Error, 0x1000),
        (LevelFilter::Warn, 0x1100),
        (LevelFilter::Info, 0x1110),
        (LevelFilter::Debug, 0x1111),
        (LevelFilter::Trace, 0x1111),
    ];
    for (level, severity) in severities {
        let info = messenger_create_info(level);
        assert_eq!(info.flags, 0);
        assert_eq!(info.message_severity, severity);
        assert_eq!(info.message_type, 0x7);
    }
}

#[test]
fn messenger_needs_data_and_extension() {
    let with = vec![Extension::Surface.name(), Extension::DebugUtils.name()];
    let without = vec![Extension::Surface.name()];
    assert!(request_messenger_at(LevelFilter::Warn, None, &with).is_none());
    assert!(request_messenger_at(LevelFilter::Warn, Some(khronos(3)), &without).is_none());
    let request = request_messenger_at(LevelFilter::Warn, Some(khronos(3)), &with).unwrap();
    assert_eq!(request.create_info, messenger_create_info(LevelFilter::Warn));
    assert_eq!(request.callback_data.validation_layer_spec_version, vk::make_api_version(0, 1, 3, 3));
    assert_eq!(
        request.callback_data.validation_layer_description.as_bytes(),
        b"Khronos Validation Layer"
    );
}

#[test]
fn messenger_uses_the_filter_of_the_process() {
    let extensions = vec![Extension::DebugUtils.name()];
    let levels = [
        (log::LevelFilter::Off, LevelFilter::Off),
        (log::LevelFilter::Error, LevelFilter::Error),
        (log::LevelFilter::Warn, LevelFilter::Warn),
        (log::LevelFilter::Info, LevelFilter::Info),
        (log::LevelFilter::Debug, LevelFilter::Debug),
        (log::LevelFilter::Trace, LevelFilter::Trace),
    ];
    for (set, level) in levels {
        log::set_max_level(set);
        let request = request_messenger(Some(khronos(1)), &extensions).unwrap();
        assert_eq!(request.create_info, messenger_create_info(level));
    }
}

#[test]
fn filters_are_ordered() {
    assert!(LevelFilter::Trace.at_least(LevelFilter::Debug));
    assert!(LevelFilter::Info.at_least(LevelFilter::Info));
    assert!(!LevelFilter::Off.at_least(LevelFilter::Error));
}

#[test]
fn numbers_are_rendered_as_std_renders_them() {
    for n in [0u64, 1, 9, 10, 15, 16, 17, 255, 256, 0xabcdef, 0x1234_5678_9abc_def0, u64::MAX] {
        let mut out = String::from("n=");
        append_hex(&mut out, n);
        assert_eq!(out, format!("n={:x}", n));
    }
}

#[test]
fn strings_are_joined() {
    assert_eq!(join(&Vec::new(), ", "), "");
    assert_eq!(join(&vec!["a".to_string()], ", "), "a");
    assert_eq!(join(&vec!["a".to_string(), String::new(), "b".to_string()], ", "), "a, , b");
}
