use edith::text::{decimal_string, remove_char, starts_with, str_less, strip_prefix, take_chars, trim, trim_end_matches};
use edith::voice::{listen_step, ready, transcript, ListenStep, MacSay, WhisperCli, RECORD_SECONDS};

#[test]
fn trim_removes_unicode_white_space() {
    assert_eq!(trim("  bonjour \n"), "bonjour");
    assert_eq!(trim("\u{a0}\tmot\u{3000}"), "mot");
    assert_eq!(trim("   "), "");
    assert_eq!(trim(""), "");
    assert_eq!(trim("a b"), "a b");
}

#[test]
fn decimal_numerals() {
    assert_eq!(decimal_string(0), "0");
    assert_eq!(decimal_string(7), "7");
    assert_eq!(decimal_string(100), "100");
    assert_eq!(decimal_string(u64::MAX), u64::MAX.to_string());
}

#[test]
fn prefixes_and_filters() {
    assert!(starts_with("TRANSCRIPT x", "TRANSCRIPT"));
    assert!(!starts_with("TRANS", "TRANSCRIPT"));
    assert_eq!(strip_prefix("TRANSCRIPT x", "TRANSCRIPT"), Some(" x".to_string()));
    assert_eq!(strip_prefix("WAKE", "TRANSCRIPT"), None);
    assert_eq!(remove_char("a\"b\"c", '"'), "abc");
    assert_eq!(trim_end_matches("http://a///", '/'), "http://a");
    assert_eq!(take_chars("héllo", 2), "hé");
    assert_eq!(take_chars("hé", 10), "hé");
}

#[test]
fn lexicographic_order() {
    assert!(str_less("a", "b"));
    assert!(str_less("get", "get_time"));
    assert!(!str_less("b", "a"));
    assert!(!str_less("a", "a"));
    assert!(str_less("Z", "a"));
    assert!(str_less("e", "é"));
}

#[test]
fn wake_word_ready_line() {
    assert_eq!(ready("READY\n"), Ok(()));
    assert_eq!(ready("OOPS\n"), Err("wake word: démarrage inattendu: OOPS\n".to_string()));
}

#[test]
fn wake_word_transcripts() {
    assert_eq!(transcript("TRANSCRIPT allume la lumière\n"), Some(Some("allume la lumière".to_string())));
    assert_eq!(transcript("TRANSCRIPT   \n"), Some(None));
    assert_eq!(transcript("  TRANSCRIPTquoi\n"), Some(Some("quoi".to_string())));
    assert_eq!(transcript("WAKE\n"), None);
    assert!(matches!(listen_step(0, ""), ListenStep::Stopped));
    assert!(matches!(listen_step(5, "WAKE\n"), ListenStep::Continue));
    assert!(matches!(listen_step(9, "bruit\n"), ListenStep::Continue));
    match listen_step(20, "TRANSCRIPT quelle heure\n") {
        ListenStep::Heard(Some(t)) => assert_eq!(t, "quelle heure"),
        _ => panic!("expected a transcript"),
    }
    assert!(matches!(listen_step(12, "TRANSCRIPT\n"), ListenStep::Heard(None)));
}

#[test]
fn whisper_command_lines() {
    let w = WhisperCli::new("models/ggml-base.bin".to_string());
    assert_eq!(w.model_path(), "models/ggml-base.bin");
    assert_eq!(RECORD_SECONDS, 7);
    assert_eq!(
        w.record_args("/tmp/in.wav"),
        vec!["-q", "/tmp/in.wav", "rate", "16000", "channels", "1", "trim", "0", "7"]
    );
    assert_eq!(
        w.transcribe_args("/tmp/in.wav"),
        vec!["-m", "models/ggml-base.bin", "-l", "fr", "-nt", "-f", "/tmp/in.wav"]
    );
    assert_eq!(w.transcription(true, " bonjour Edith \n", ""), Ok("bonjour Edith".to_string()));
    assert_eq!(w.transcription(false, "", "no model\n"), Err("whisper-cli a échoué: no model\n".to_string()));
}

#[test]
fn say_command_line() {
    let m = MacSay::new("Thomas".to_string());
    assert_eq!(m.say_args("Bonjour"), vec!["-v", "Thomas", "Bonjour"]);
}
