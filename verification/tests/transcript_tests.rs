use whisper_npu::transcript::{
    clean_whisper_text, device_lines_of, gpu_device_index, is_amd_device_line, pick_device_index,
    transcript_from_output,
    EngineError, WhisperEngine, WHISPER_CLI_PATH, WHISPER_MODEL_PATH,
};

#[test]
fn test_clean_text() {
    assert_eq!(
        clean_whisper_text("[music] And so (applause) my fellow Americans"),
        "And so my fellow Americans"
    );
}

#[test]
fn clean_text_nested_and_unbalanced_brackets() {
    assert_eq!(clean_whisper_text("a [b [c] d] e"), "a e");
    assert_eq!(clean_whisper_text("a (b [c) d] e"), "a e");
    assert_eq!(clean_whisper_text("stray ] and ) close"), "stray and close");
    assert_eq!(clean_whisper_text("open [ never closed"), "open");
}

#[test]
fn clean_text_whitespace_normalized() {
    assert_eq!(clean_whisper_text("  hello \n\t world  "), "hello world");
    assert_eq!(clean_whisper_text(""), "");
    assert_eq!(clean_whisper_text("   \n "), "");
    assert_eq!(clean_whisper_text("a\u{3000}b\u{a0}c"), "a b c");
}

#[test]
fn clean_text_is_idempotent() {
    for s in ["[music] And so (applause) my fellow Americans", " x  [y] z ", "((a)) b"] {
        let once = clean_whisper_text(s);
        assert_eq!(clean_whisper_text(&once), once);
    }
}

#[test]
fn engine_requires_program_then_model() {
    match WhisperEngine::new("models", "en", false, false, 1) {
        Err(e) => assert_eq!(
            e.message(),
            format!("whisper-cli-npu not found at {}", WHISPER_CLI_PATH)
        ),
        Ok(_) => panic!("expected an error"),
    }
    match WhisperEngine::new("models", "en", true, false, 1) {
        Err(EngineError::ModelNotFound { path }) => assert_eq!(path, WHISPER_MODEL_PATH),
        _ => panic!("expected a missing model"),
    }
    let e = WhisperEngine::new("models", "en", true, true, 3).ok().unwrap();
    assert_eq!(e.language, "en");
    assert_eq!(e.gpu_device, 3);
    assert_eq!(e.cli_path, WHISPER_CLI_PATH);
}

#[test]
fn engine_cli_arguments() {
    let e = WhisperEngine::new("models", "en", true, true, 1).ok().unwrap();
    assert_eq!(
        e.cli_args("/tmp/x.wav"),
        vec!["-m", WHISPER_MODEL_PATH, "-f", "/tmp/x.wav", "-nt", "-sns", "-ng", "-l", "en"]
    );
    let e = WhisperEngine::new("models", "", true, true, 1).ok().unwrap();
    assert_eq!(
        e.cli_args("a.wav"),
        vec!["-m", WHISPER_MODEL_PATH, "-f", "a.wav", "-nt", "-sns", "-ng"]
    );
}

#[test]
fn transcript_only_from_successful_runs() {
    assert_eq!(transcript_from_output(true, " [BLANK_AUDIO] hi  there\n"), "hi there");
    assert_eq!(transcript_from_output(false, "hi"), "");
}

#[test]
fn gpu_index_counts_device_lines() {
    let summary = "GPU0:\n\tdeviceName = llvmpipe\nGPU1:\n\tdeviceName = AMD Radeon 890M\n";
    assert_eq!(gpu_device_index(Some(summary)), 1);
    let summary = "\tdeviceName = AMD Radeon 890M\r\n\tdeviceName = llvmpipe\n";
    assert_eq!(gpu_device_index(Some(summary)), 0);
    let summary = "deviceName = a\ndeviceName = b\ndeviceName = Radeon\n";
    assert_eq!(gpu_device_index(Some(summary)), 2);
    assert_eq!(gpu_device_index(Some("deviceName = llvmpipe\n")), 1);
    assert_eq!(gpu_device_index(None), 1);
}

#[test]
fn gpu_index_matches_driver_name_in_any_case() {
    // Only the lowercase form of the line mentions the driver.
    let summary = "deviceName = x\ndeviceName = x\ndeviceName = Mesa RaDV gfx1150\n";
    assert_eq!(gpu_device_index(Some(summary)), 2);
    assert!(is_amd_device_line("Mesa RaDV", "mesa radv"));
    assert!(!is_amd_device_line("Mesa RaDV", "Mesa RaDV"));
}

fn strings(v: &[&str]) -> Vec<String> {
    v.iter().map(|x| x.to_string()).collect()
}

#[test]
fn device_lines_keep_only_device_names() {
    let summary = "GPU0:\n\tdeviceName = llvmpipe\n\tdriverName = x\nGPU1:\n\tdeviceName = AMD\r\n";
    assert_eq!(
        device_lines_of(summary),
        strings(&["\tdeviceName = llvmpipe", "\tdeviceName = AMD"])
    );
    assert!(device_lines_of("no devices here\n").is_empty());
}

#[test]
fn pick_uses_the_given_lowercase_forms() {
    let devices = strings(&["deviceName = A", "deviceName = B", "deviceName = C"]);
    // Only the lowercase form handed in decides a radv match.
    let lowered = strings(&["x", "radv", "radv"]);
    assert_eq!(pick_device_index(&devices, &lowered), 1);
    let lowered = strings(&["x", "y", "z"]);
    assert_eq!(pick_device_index(&devices, &lowered), 1);
    let devices = strings(&["deviceName = a", "deviceName = b", "deviceName = c", "Radeon"]);
    let lowered = strings(&["a", "b", "c", "radeon"]);
    assert_eq!(pick_device_index(&devices, &lowered), 3);
    let lowered = strings(&["radv", "b", "c", "radeon"]);
    assert_eq!(pick_device_index(&devices, &lowered), 0);
    assert_eq!(pick_device_index(&Vec::new(), &Vec::new()), 1);
}

#[test]
fn cleaning_a_space_joined_pair_cleans_each_part() {
    let x = "  hello [music] world ";
    let y = "(laughs) again\tand again";
    let joined = format!("{} {}", x, y);
    assert_eq!(clean_whisper_text(&joined), "hello world again and again");
    assert_eq!(
        clean_whisper_text(&joined),
        format!("{} {}", clean_whisper_text(x), clean_whisper_text(y))
    );
    // An empty cleaned part leaves no extra space.
    assert_eq!(clean_whisper_text(&format!("{} {}", "[BLANK_AUDIO]", "ok")), "ok");
    assert_eq!(clean_whisper_text(&format!("{} {}", "ok", "(noise)")), "ok");
    // A part that leaves a bracket open swallows what follows.
    assert_eq!(clean_whisper_text(&format!("{} {}", "[open", "rest")), "");
}
