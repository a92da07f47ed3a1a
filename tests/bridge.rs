use vapoursynth::api::{api_version, c_string_bytes, EntryPointCache, MessageHandlerId, MessageType, NulError};
use vapoursynth::format::{ColorFamily, SampleType};
use vapoursynth::plugins::{
    after_all_frames_ready, after_create, after_initial, create_error, CreateOutcome, dispatch, escape_nul_chars, fetch_allowed, filter_registration,
    plugin_config, Activation, FilterAction, FrameContext, FrameKey, Metadata, Phase, RequestState,
};
use vapoursynth::vsscript::{
    check_script_api_version, evaluation_result, maybe_initialize, output_nodes, plan_evaluation, variable_status, EvalFlags,
    Evaluation, ScriptError, ScriptSource,
};

#[test]
fn message_type_codes() {
    assert_eq!(MessageType::Debug.ffi_type(), vapoursynth_sys::VSMessageType_mtDebug as i32);
    assert_eq!(MessageType::Warning.ffi_type(), vapoursynth_sys::VSMessageType_mtWarning as i32);
    assert_eq!(MessageType::Critical.ffi_type(), vapoursynth_sys::VSMessageType_mtCritical as i32);
    assert_eq!(MessageType::Fatal.ffi_type(), vapoursynth_sys::VSMessageType_mtFatal as i32);
    for t in [MessageType::Debug, MessageType::Warning, MessageType::Critical, MessageType::Fatal] {
        assert_eq!(MessageType::from_ffi_type(t.ffi_type()), Some(t));
    }
    assert_eq!(MessageType::from_ffi_type(1), None);
    assert_eq!(MessageHandlerId(()), MessageHandlerId(()));
}

#[test]
fn engine_codes_agree() {
    assert_eq!(ColorFamily::YUV.code(), vapoursynth_sys::VSColorFamily_cfYUV as i32);
    assert_eq!(ColorFamily::Gray.code(), vapoursynth_sys::VSColorFamily_cfGray as i32);
    assert_eq!(SampleType::Float.code(), vapoursynth_sys::VSSampleType_stFloat as i32);
    assert_eq!(ColorFamily::from_code(2), Some(ColorFamily::RGB));
    assert_eq!(ColorFamily::from_code(4), None);
    assert_eq!(SampleType::from_code(0), Some(SampleType::Integer));
    assert_eq!(SampleType::from_code(-1), None);
    assert_eq!(ColorFamily::RGB.name(), "RGB");
    assert_eq!(SampleType::Float.name(), "Float");
    assert_eq!(
        api_version(),
        ((vapoursynth_sys::VAPOURSYNTH_API_MAJOR << 16) | vapoursynth_sys::VAPOURSYNTH_API_MINOR) as i32
    );
    assert_eq!(api_version(), 0x4_0000);
    assert_eq!(Activation::from_code(vapoursynth_sys::VSActivationReason_arInitial), Some(Activation::Initial));
    assert_eq!(Activation::from_code(vapoursynth_sys::VSActivationReason_arAllFramesReady), Some(Activation::AllFramesReady));
    assert_eq!(Activation::from_code(vapoursynth_sys::VSActivationReason_arError), Some(Activation::Error));
    assert_eq!(Activation::from_code(7), None);
}

#[test]
fn c_strings() {
    assert_eq!(c_string_bytes("abc"), Ok(vec![b'a', b'b', b'c', 0]));
    assert_eq!(c_string_bytes(""), Ok(vec![0]));
    assert_eq!(c_string_bytes("ab\0c"), Err(NulError { position: 2 }));
}

#[test]
fn entry_point_cache() {
    let mut cache = EntryPointCache::new();
    assert_eq!(cache.cached(), None);
    assert_eq!(cache.resolve(None), None);
    assert_eq!(cache.resolve(Some(0x1000)), Some(0x1000));
    assert_eq!(cache.resolve(Some(0x2000)), Some(0x1000));
    cache.begin_session();
    cache.begin_session();
    assert!(!cache.end_session());
    assert_eq!(cache.cached(), Some(0x1000));
    assert!(cache.end_session());
    assert_eq!(cache.cached(), None);
    assert_eq!(cache.resolve(Some(0x3000)), Some(0x3000));
}

#[test]
fn two_phase_protocol() {
    let state = RequestState::NotStarted;
    assert_eq!(dispatch(&state, 0), Phase::CallInitial);
    assert_eq!(dispatch(&state, 1), Phase::Ignore);

    let mut ctx = FrameContext::new(Activation::Initial);
    assert_eq!(ctx.output_index(), 0);
    ctx.request_frame_filter(8, 3);
    ctx.request_frame_filter(8, 4);
    let (state, action) = after_initial(Ok(None), ctx);
    assert!(matches!(action, FilterAction::ReturnNothing));
    assert!(fetch_allowed(&state, FrameKey { node: 8, index: 4 }));
    assert!(!fetch_allowed(&state, FrameKey { node: 8, index: 5 }));
    assert_eq!(dispatch(&state, 0), Phase::Ignore);
    assert_eq!(dispatch(&state, -1), Phase::Ignore);
    assert_eq!(dispatch(&state, 1), Phase::CallAllFramesReady);

    let (state, action) = after_all_frames_ready(Ok(77));
    assert!(matches!(state, RequestState::Produced(77)));
    assert!(matches!(action, FilterAction::ReturnFrame(77)));
    assert_eq!(dispatch(&state, 0), Phase::Ignore);
    assert_eq!(dispatch(&state, 1), Phase::Ignore);
    assert!(!fetch_allowed(&state, FrameKey { node: 8, index: 4 }));
}

#[test]
fn phase_failures_report_one_message() {
    let (state, action) = after_initial(Err("bad\0arg"), FrameContext::new(Activation::Initial));
    match (&state, &action) {
        (RequestState::Failed(m), FilterAction::ReportError(m2)) => {
            assert_eq!(m, "Error in Filter::get_frame_initial(): bad\\0arg");
            assert_eq!(m, m2);
        }
        other => panic!("unexpected {:?}", other),
    }
    let (_, action) = after_initial(Ok(Some(5)), FrameContext::new(Activation::Initial));
    assert!(matches!(action, FilterAction::ReturnFrame(5)));
    let (state, _) = after_all_frames_ready(Err("no source"));
    assert!(matches!(state, RequestState::Failed(ref m) if m == "no source"));
    assert_eq!(dispatch(&state, 1), Phase::Ignore);
}

#[test]
fn messages() {
    assert_eq!(escape_nul_chars("a\0b\0"), "a\\0b\\0");
    assert_eq!(escape_nul_chars("plain"), "plain");
    assert_eq!(escape_nul_chars(""), "");
    assert_eq!(create_error("Invert", "no clip"), "Error in Filter::create() of Invert: no clip");
}

#[test]
fn plugin_configuration() {
    let meta = Metadata { identifier: "com.example.invert", namespace: "invert", name: "Invert", read_only: true };
    let c = plugin_config(&meta).unwrap();
    assert_eq!(c.identifier, b"com.example.invert\0".to_vec());
    assert_eq!(c.namespace, b"invert\0".to_vec());
    assert_eq!(c.flags, 0);
    assert_eq!(c.plugin_version, 1);
    assert_eq!(c.api_version, 0x4_0000);
    let writable = Metadata { read_only: false, ..meta };
    assert_eq!(plugin_config(&writable).unwrap().flags, vapoursynth_sys::VSPluginConfigFlags_pcModifiable as i32);
    let bad = Metadata { name: "In\0vert", ..meta };
    assert_eq!(plugin_config(&bad).err(), Some(NulError { position: 2 }));
    let r = filter_registration("Invert", "clip:vnode;", "clip:vnode;").unwrap();
    assert_eq!(r.name, b"Invert\0".to_vec());
    assert_eq!(r.args, b"clip:vnode;\0".to_vec());
    assert_eq!(filter_registration("x", "a\0", "b").err(), Some(NulError { position: 1 }));
}

#[test]
fn script_decisions() {
    assert!(check_script_api_version(0x4_0001).is_ok());
    assert!(check_script_api_version(0x4_0002).is_ok());
    assert!(matches!(
        check_script_api_version(0x4_0000),
        Err(ScriptError::UnsupportedVersion { major: 4, minor: 0 })
    ));
    assert!(matches!(
        check_script_api_version(0x3_0006),
        Err(ScriptError::UnsupportedVersion { major: 3, minor: 6 })
    ));
    assert!(check_script_api_version(-1).is_err());
    assert!(matches!(output_nodes(None, Some(2)), Err(ScriptError::NoOutput)));
    assert!(matches!(output_nodes(Some(1), None), Ok((1, None))));
    assert!(matches!(output_nodes(Some(1), Some(2)), Ok((1, Some(2)))));
    assert!(variable_status(0).is_ok());
    assert!(matches!(variable_status(1), Err(ScriptError::NoSuchVariable)));
    assert!(EvalFlags::SetWorkingDir.sets_working_dir());
    assert!(!EvalFlags::Nothing.sets_working_dir());
}

#[test]
fn filter_creation_outcomes() {
    assert!(matches!(after_create("Invert", Ok(Some(3u8))), CreateOutcome::Register(3)));
    assert!(matches!(after_create::<u8>("Invert", Ok(None)), CreateOutcome::Nothing));
    match after_create::<u8>("Invert", Err("bad\0")) {
        CreateOutcome::ReportError(m) => assert_eq!(m, "Error in Filter::create() of Invert: bad\\0"),
        other => panic!("unexpected {:?}", other),
    }
}

#[test]
fn script_interface_initialization() {
    let mut cache = EntryPointCache::new();
    assert!(matches!(maybe_initialize(&mut cache, None), Err(ScriptError::NoAPI)));
    assert!(matches!(
        maybe_initialize(&mut cache, Some((0x10, 0x3_0002))),
        Err(ScriptError::UnsupportedVersion { major: 3, minor: 2 })
    ));
    assert_eq!(cache.cached(), None);
    assert!(matches!(maybe_initialize(&mut cache, Some((0x10, 0x4_0001))), Ok(0x10)));
    assert!(matches!(maybe_initialize(&mut cache, Some((0x20, 0x4_0001))), Ok(0x10)));
    assert!(matches!(maybe_initialize(&mut cache, None), Ok(0x10)));
    assert_eq!(cache.sessions(), 0);
}

#[test]
fn evaluation_plans() {
    match plan_evaluation(ScriptSource::Script("clip = 1")) {
        Ok(Evaluation::Buffer { script }) => assert_eq!(script, b"clip = 1\0".to_vec()),
        other => panic!("unexpected {:?}", other),
    }
    match plan_evaluation(ScriptSource::File("test.vpy", EvalFlags::SetWorkingDir)) {
        Ok(Evaluation::File { path, set_working_dir }) => {
            assert_eq!(path, b"test.vpy\0".to_vec());
            assert!(set_working_dir);
        }
        other => panic!("unexpected {:?}", other),
    }
    assert!(matches!(
        plan_evaluation(ScriptSource::File("a\0b", EvalFlags::Nothing)),
        Err(ScriptError::CStringConversion(NulError { position: 1 }))
    ));
    assert!(evaluation_result(0, b"ignored").is_ok());
    match evaluation_result(1, b"SyntaxError\0junk") {
        Err(ScriptError::Evaluation(m)) => assert_eq!(m, b"SyntaxError".to_vec()),
        other => panic!("unexpected {:?}", other),
    }
}
