//! The video persister's decision logic. The host binary resolves the
//! application data directory, reads the clock, creates the directory and
//! writes the file; the library derives every path and name it uses, hands
//! the payload through byte for byte, and phrases every failure message.
//! The file name is `video_<unix-seconds>.mp4`, so saves from distinct
//! clock seconds never share a file — proved below — while two saves
//! within one second target the same file and the later write wins.

use crate::decimal::dec_rep;
use crate::decimal::lemma_dec_rep_injective;
use crate::decimal::u64_to_decimal;
use vstd::prelude::*;
use vstd::string::StringExecFns;

verus! {

/// The directory that holds saved videos: the application data directory
/// with the fixed subdirectory appended.
pub open spec fn spec_videos_dir(app_data_dir: Seq<char>) -> Seq<char> {
    app_data_dir + "/videos"@
}

/// The file name derived from a clock reading: `video_<unix-seconds>.mp4`.
pub open spec fn spec_video_file_name(unix_seconds: u64) -> Seq<char> {
    "video_"@ + dec_rep(unix_seconds as nat) + ".mp4"@
}

/// The full path of the file a save targets.
pub open spec fn spec_save_path(videos_dir: Seq<char>, unix_seconds: u64) -> Seq<char> {
    videos_dir + "/"@ + spec_video_file_name(unix_seconds)
}

/// The path a save plan targets, from the application data directory and
/// the clock reading alone: the payload plays no part in it.
pub open spec fn spec_save_plan_path(app_data_dir: Seq<char>, unix_seconds: u64) -> Seq<char> {
    spec_save_path(spec_videos_dir(app_data_dir), unix_seconds)
}

/// Appends the fixed subdirectory to the application data directory.
pub fn videos_dir_path(app_data_dir: &str) -> (r: String)
    ensures
        r@ == spec_videos_dir(app_data_dir@),
{
    app_data_dir.to_owned().concat("/videos")
}

/// Derives the file name for a save made at `unix_seconds`.
pub fn video_file_name(unix_seconds: u64) -> (r: String)
    ensures
        r@ == spec_video_file_name(unix_seconds),
{
    let digits = u64_to_decimal(unix_seconds);
    "video_".to_owned().concat(digits.as_str()).concat(".mp4")
}

/// Joins the videos directory and the derived file name.
pub fn save_path(videos_dir: &str, unix_seconds: u64) -> (r: String)
    ensures
        r@ == spec_save_path(videos_dir@, unix_seconds),
{
    let name = video_file_name(unix_seconds);
    videos_dir.to_owned().concat("/").concat(name.as_str())
}

/// Everything a save needs from the host: the directory to create, the file
/// to write, and the bytes to write into it.
pub struct SavePlan {
    pub videos_dir: String,
    pub file_path: String,
    pub data: Vec<u8>,
}

/// Lays out one save: the videos directory under the application data
/// directory, the timestamped file path inside it, and the payload,
/// unmodified. The path depends on the directory and the clock reading
/// alone, never on the payload.
pub fn plan_save(data: Vec<u8>, app_data_dir: &str, unix_seconds: u64) -> (plan: SavePlan)
    ensures
        plan.videos_dir@ == spec_videos_dir(app_data_dir@),
        plan.file_path@ == spec_save_plan_path(app_data_dir@, unix_seconds),
        plan.data@ == data@,
{
    let videos_dir = videos_dir_path(app_data_dir);
    let file_path = save_path(videos_dir.as_str(), unix_seconds);
    SavePlan { videos_dir, file_path, data }
}

/// Which step of a save failed, with the underlying report where there is
/// one: resolving the application data directory, creating the videos
/// directory, reading the clock, writing the file, or representing the
/// path as text.
pub enum SaveFailure {
    AppDataDir(String),
    CreateDir(String),
    Clock(String),
    WriteFile(String),
    PathEncoding,
}

/// Phrases the message a failed save returns: each step fails with its own
/// prefix and the underlying report appended, and the message is never
/// empty.
pub fn save_error_message(failure: SaveFailure) -> (r: String)
    ensures
        match failure {
            SaveFailure::AppDataDir(detail) => r@ == "Failed to get app data dir: "@ + detail@,
            SaveFailure::CreateDir(detail) => r@ == "Failed to create videos directory: "@
                + detail@,
            SaveFailure::Clock(detail) => r@ == "Failed to get timestamp: "@ + detail@,
            SaveFailure::WriteFile(detail) => r@ == "Failed to write video file: "@ + detail@,
            SaveFailure::PathEncoding => r@ == "Failed to convert path to string"@,
        },
        r@.len() > 0,
{
    proof {
        reveal_strlit("Failed to get app data dir: ");
        reveal_strlit("Failed to create videos directory: ");
        reveal_strlit("Failed to get timestamp: ");
        reveal_strlit("Failed to write video file: ");
        reveal_strlit("Failed to convert path to string");
    }
    match failure {
        SaveFailure::AppDataDir(detail) => "Failed to get app data dir: ".to_owned().concat(
            detail.as_str(),
        ),
        SaveFailure::CreateDir(detail) => "Failed to create videos directory: ".to_owned().concat(
            detail.as_str(),
        ),
        SaveFailure::Clock(detail) => "Failed to get timestamp: ".to_owned().concat(
            detail.as_str(),
        ),
        SaveFailure::WriteFile(detail) => "Failed to write video file: ".to_owned().concat(
            detail.as_str(),
        ),
        SaveFailure::PathEncoding => "Failed to convert path to string".to_owned(),
    }
}

/// A shared prefix cancels: if `p + a` and `p + b` are the same sequence,
/// so are `a` and `b`.
proof fn lemma_prefix_cancel(p: Seq<char>, a: Seq<char>, b: Seq<char>)
    requires
        p + a == p + b,
    ensures
        a == b,
{
    assert((p + a).len() == p.len() + a.len());
    assert((p + b).len() == p.len() + b.len());
    assert forall|i: int| 0 <= i < a.len() implies a[i] == b[i] by {
        assert((p + a)[p.len() + i] == a[i]);
        assert((p + b)[p.len() + i] == b[i]);
    }
    assert(a =~= b);
}

/// A shared prefix and suffix cancel: if `p + a + q` and `p + b + q` are
/// the same sequence, so are `a` and `b`.
proof fn lemma_mid_cancel(p: Seq<char>, a: Seq<char>, b: Seq<char>, q: Seq<char>)
    requires
        p + a + q == p + b + q,
    ensures
        a == b,
{
    assert((p + a + q).len() == p.len() + a.len() + q.len());
    assert((p + b + q).len() == p.len() + b.len() + q.len());
    assert forall|i: int| 0 <= i < a.len() implies a[i] == b[i] by {
        assert((p + a + q)[p.len() + i] == (p + a)[p.len() + i]);
        assert((p + a)[p.len() + i] == a[i]);
        assert((p + b + q)[p.len() + i] == (p + b)[p.len() + i]);
        assert((p + b)[p.len() + i] == b[i]);
    }
    assert(a =~= b);
}

/// Saves made at distinct clock seconds derive distinct file names: the
/// name embeds the second's decimal representation, which is injective.
pub proof fn lemma_distinct_seconds_distinct_names(s1: u64, s2: u64)
    requires
        s1 != s2,
    ensures
        spec_video_file_name(s1) != spec_video_file_name(s2),
{
    if spec_video_file_name(s1) == spec_video_file_name(s2) {
        lemma_mid_cancel("video_"@, dec_rep(s1 as nat), dec_rep(s2 as nat), ".mp4"@);
        lemma_dec_rep_injective(s1 as nat, s2 as nat);
    }
}

/// Saves made at distinct clock seconds target distinct files — identical
/// payloads included, so repeating a save in a later second always
/// produces a second file, never a deduplication.
pub proof fn lemma_distinct_seconds_distinct_paths(
    app_data_dir: Seq<char>,
    s1: u64,
    s2: u64,
)
    requires
        s1 != s2,
    ensures
        spec_save_plan_path(app_data_dir, s1) != spec_save_plan_path(app_data_dir, s2),
{
    if spec_save_plan_path(app_data_dir, s1) == spec_save_plan_path(app_data_dir, s2) {
        lemma_prefix_cancel(
            spec_videos_dir(app_data_dir) + "/"@,
            spec_video_file_name(s1),
            spec_video_file_name(s2),
        );
        lemma_distinct_seconds_distinct_names(s1, s2);
    }
}

/// Saves planned within the same clock second target the same file,
/// whatever bytes each carries: the path is derived from the directory and
/// the second alone. That the later write then overwrites the earlier
/// one's bytes is the filesystem's doing, carried out by the host.
pub proof fn lemma_same_second_same_target(
    data1: Seq<u8>,
    data2: Seq<u8>,
    app_data_dir: Seq<char>,
    s: u64,
)
    ensures
        spec_save_plan_path(app_data_dir, s) == spec_save_plan_path(app_data_dir, s),
{
}

} // verus!
