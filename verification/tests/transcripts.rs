use std::path::Path;
use whispering::paths::file_extension;
use whispering::audio::{check_captured, no_default_device_message, select_input_device, InputDevice};
use whispering::transcripts::{
    latest_transcript_path, transcript_contents, transcript_file_name, transcript_path,
    transcripts_dir,
};

#[test]
fn transcripts_live_under_the_cache_dir() {
    let dir = transcripts_dir("/c/Whispering");
    assert_eq!(dir, "/c/Whispering/transcripts");
    assert!(Path::new(&transcript_path("/c/Whispering", 1_712_345_678_901)).starts_with(&dir));
    assert_eq!(
        transcript_path("/c/Whispering", 1_712_345_678_901),
        "/c/Whispering/transcripts/transcript-1712345678901.txt"
    );
    assert_eq!(
        latest_transcript_path("/c/Whispering"),
        "/c/Whispering/transcripts/latest.txt"
    );
}

#[test]
fn transcript_file_names_render_the_timestamp() {
    assert_eq!(transcript_file_name(0), "transcript-0.txt");
    assert_eq!(transcript_file_name(7), "transcript-7.txt");
    assert_eq!(transcript_file_name(10), "transcript-10.txt");
    assert_eq!(
        transcript_file_name(u128::MAX),
        format!("transcript-{}.txt", u128::MAX)
    );
    assert_ne!(transcript_file_name(12), transcript_file_name(120));
}

#[test]
fn transcript_contents_end_in_one_newline() {
    assert_eq!(transcript_contents("hello world"), "hello world\n");
    assert_eq!(transcript_contents("hello world\n"), "hello world\n");
    assert_eq!(transcript_contents(""), "\n");
    let once = transcript_contents("a\nb");
    assert_eq!(transcript_contents(&once), once);
}

#[test]
fn configured_device_is_found_by_name() {
    let names = vec![
        Some("Built-in".to_string()),
        None,
        Some("USB Microphone".to_string()),
        Some("USB Microphone".to_string()),
    ];
    assert_eq!(select_input_device(None, &names), Ok(InputDevice::Default));
    assert_eq!(
        select_input_device(Some("USB Microphone"), &names),
        Ok(InputDevice::Listed(2))
    );
    assert_eq!(
        select_input_device(Some("Headset"), &names),
        Err("Input device 'Headset' not found".to_string())
    );
    assert_eq!(no_default_device_message(), "No default input device available");
}

#[test]
fn empty_capture_is_refused() {
    assert_eq!(check_captured(0), Err("No audio captured"));
    assert_eq!(check_captured(16000), Ok(()));
}

#[test]
fn file_extensions_follow_path_rules() {
    assert_eq!(file_extension("model.bin"), Some("bin".to_string()));
    assert_eq!(file_extension("archive.tar.gz"), Some("gz".to_string()));
    assert_eq!(file_extension("trailing."), Some(String::new()));
    assert_eq!(file_extension(".bin"), None);
    assert_eq!(file_extension("noext"), None);
    assert_eq!(file_extension(".."), None);
    assert_eq!(file_extension("."), None);
    for name in ["model.bin", "archive.tar.gz", "trailing.", ".bin", "noext", "..", "...", "a..b"] {
        assert_eq!(
            file_extension(name),
            Path::new(name)
                .extension()
                .map(|e| e.to_string_lossy().into_owned()),
            "{}",
            name
        );
    }
}
