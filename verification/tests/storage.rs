use media_shim::storage::plan_save;
use media_shim::storage::save_error_message;
use media_shim::storage::save_path;
use media_shim::storage::video_file_name;
use media_shim::storage::videos_dir_path;
use media_shim::storage::SaveFailure;

#[test]
fn videos_dir_is_the_fixed_subdirectory() {
    assert_eq!(videos_dir_path("/data/app"), "/data/app/videos");
    assert_eq!(videos_dir_path(""), "/videos");
}

#[test]
fn file_name_embeds_the_second() {
    assert_eq!(video_file_name(1700000000), "video_1700000000.mp4");
    assert_eq!(video_file_name(0), "video_0.mp4");
}

#[test]
fn save_path_joins_directory_and_name() {
    assert_eq!(
        save_path("/data/app/videos", 1700000000),
        "/data/app/videos/video_1700000000.mp4"
    );
}

#[test]
fn plan_carries_the_payload_unmodified() {
    let data = vec![1u8, 2, 3, 4, 5];
    let plan = plan_save(data.clone(), "/data/app", 1700000000);
    assert_eq!(plan.videos_dir, "/data/app/videos");
    assert_eq!(plan.file_path, "/data/app/videos/video_1700000000.mp4");
    assert_eq!(plan.data, data);
}

#[test]
fn plan_accepts_an_empty_payload() {
    let plan = plan_save(Vec::new(), "/data/app", 3);
    assert_eq!(plan.file_path, "/data/app/videos/video_3.mp4");
    assert!(plan.data.is_empty());
}

#[test]
fn same_second_targets_the_same_file_whatever_the_data() {
    let first = plan_save(vec![1u8, 1, 1], "/data/app", 1700000000);
    let second = plan_save(vec![2u8, 2, 2, 2], "/data/app", 1700000000);
    assert_eq!(first.file_path, second.file_path);
    assert_ne!(first.data, second.data);
}

#[test]
fn distinct_seconds_target_distinct_files_for_identical_data() {
    let data = vec![9u8, 9, 9];
    let first = plan_save(data.clone(), "/data/app", 1700000000);
    let second = plan_save(data, "/data/app", 1700000001);
    assert_ne!(first.file_path, second.file_path);
}

#[test]
fn each_failed_step_has_its_exact_message() {
    assert_eq!(
        save_error_message(SaveFailure::AppDataDir(String::from("unknown platform"))),
        "Failed to get app data dir: unknown platform"
    );
    assert_eq!(
        save_error_message(SaveFailure::CreateDir(String::from("permission denied"))),
        "Failed to create videos directory: permission denied"
    );
    assert_eq!(
        save_error_message(SaveFailure::Clock(String::from("second time provided was later"))),
        "Failed to get timestamp: second time provided was later"
    );
    assert_eq!(
        save_error_message(SaveFailure::WriteFile(String::from("disk full"))),
        "Failed to write video file: disk full"
    );
    assert_eq!(
        save_error_message(SaveFailure::PathEncoding),
        "Failed to convert path to string"
    );
}

#[test]
fn failure_messages_are_never_empty() {
    assert!(!save_error_message(SaveFailure::CreateDir(String::new())).is_empty());
    assert!(!save_error_message(SaveFailure::PathEncoding).is_empty());
}
