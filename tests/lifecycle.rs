use vertd::cleanup::CleanupSchedule;
use vertd::converter::{ConvertError, Converter};
use vertd::format::{Conversion, ConverterFormat};
use vertd::gpu::{ConverterGPU, HostOs};
use vertd::job::{artifact_path, Job};
use vertd::registry::{AppState, DownloadError, StartError};
use vertd::session::{finish_job, Reply};
use vertd::speed::ConversionSpeed;

#[test]
fn upload_start_convert_download_scenario() {
    let mut state = AppState::default();
    let job = state.create_job("mp4".to_string());
    assert_eq!(job.from, "mp4");
    assert_eq!(job.to, None);
    assert!(!job.completed);
    assert_eq!(job.auth.len(), 128);
    assert!(state.contains(job.id));

    let started = state.start_job(job.id, &job.auth, "webm").unwrap();
    assert_eq!(started.from, ConverterFormat::MP4);
    assert_eq!(started.to, ConverterFormat::WebM);
    assert_eq!(state.get(job.id).unwrap().to, Some("webm".to_string()));

    let conv = Conversion::new(started.from, started.to);
    let listing = " V..... av1_nvenc  NVIDIA AV1\n";
    let args = conv.to_args(&ConversionSpeed::Medium, &ConverterGPU::NVIDIA, HostOs::Linux, 800_000, 30, listing);
    assert_eq!(args[1], "av1_nvenc");
    assert_eq!(args[3], "libvorbis");
    let soft = conv.to_args(&ConversionSpeed::Medium, &ConverterGPU::Unknown, HostOs::Linux, 800_000, 30, "");
    assert_eq!(soft[1], "libvpx");

    match finish_job(&mut state, job.id, Some(1024)) {
        Reply::JobFinished { job_id } => assert_eq!(job_id, job.id),
        other => panic!("unexpected reply {:?}", other),
    }
    assert!(state.get(job.id).unwrap().completed);

    let ticket = state.take_download(job.id, &job.auth).unwrap();
    assert_eq!(ticket.path, artifact_path("output/", job.id, "webm"));
    assert_eq!(ticket.path, format!("output/{}.webm", uuid::Uuid::from_u128(job.id)));
    assert_eq!(ticket.mime, "video/webm");
    assert_eq!(state.take_download(job.id, &job.auth).unwrap_err(), DownloadError::JobNotFound);
}

#[test]
fn empty_output_is_a_failure() {
    let mut state = AppState::default();
    let job = state.create_job("mkv".to_string());
    state.start_job(job.id, &job.auth, "mp4").unwrap();
    for len in [None, Some(0)] {
        match finish_job(&mut state, job.id, len) {
            Reply::Error { message } => assert_eq!(message, "oops -- your job failed!"),
            other => panic!("unexpected reply {:?}", other),
        }
    }
    assert!(state.get(job.id).unwrap().completed);
}

#[test]
fn bad_token_never_sets_target() {
    let mut state = AppState::default();
    let job = state.create_job("mp4".to_string());
    let err = state.start_job(job.id, "not-the-token", "webm").unwrap_err();
    assert_eq!(err, StartError::InvalidToken);
    assert_eq!(err.message(), "invalid token");
    assert_eq!(state.get(job.id).unwrap().to, None);
}

#[test]
fn start_refusals() {
    let mut state = AppState::default();
    assert_eq!(state.start_job(7, "t", "mp4").unwrap_err(), StartError::JobNotFound);

    let job = state.create_job("mp4".to_string());
    assert_eq!(state.start_job(job.id, &job.auth, "jpg").unwrap_err(), StartError::InvalidOutputFormat);
    assert_eq!(state.get(job.id).unwrap().to, None);
    state.start_job(job.id, &job.auth, "gif").unwrap();
    assert_eq!(state.start_job(job.id, &job.auth, "gif").unwrap_err(), StartError::AlreadyStarted);
    finish_job(&mut state, job.id, Some(10));
    assert_eq!(state.start_job(job.id, &job.auth, "gif").unwrap_err(), StartError::AlreadyCompleted);

    let odd = Job::new("tok".to_string(), "png".to_string());
    let odd_id = odd.id;
    state.register(odd);
    assert_eq!(state.start_job(odd_id, "tok", "mp4").unwrap_err(), StartError::InvalidInputFormat);
}

#[test]
fn download_refusals() {
    let mut state = AppState::default();
    assert_eq!(state.take_download(1, "x").unwrap_err(), DownloadError::JobNotFound);
    let job = state.create_job("avi".to_string());
    assert_eq!(state.take_download(job.id, "x").unwrap_err(), DownloadError::InvalidToken);
    assert_eq!(state.take_download(job.id, &job.auth).unwrap_err(), DownloadError::IncompleteHandshake);
    assert!(state.contains(job.id));
    assert_eq!(DownloadError::JobNotFound.status_code(), 404);
    assert_eq!(DownloadError::IncompleteHandshake.status_code(), 400);
    assert_eq!(DownloadError::InvalidToken.status_code(), 401);
    assert_eq!(DownloadError::FilesystemError("disk".to_string()).status_code(), 500);
}

#[test]
fn reclaim_twice_is_reclaim_once() {
    let mut state = AppState::default();
    let job = state.create_job("mp4".to_string());
    let other = state.create_job("gif".to_string());
    state.reclaim(job.id);
    assert!(!state.contains(job.id));
    state.reclaim(job.id);
    assert!(!state.contains(job.id));
    assert!(state.contains(other.id));
}

#[test]
fn input_ttl_sweep_reclaims_unstarted_job() {
    let mut state = AppState::default();
    let mut schedule = CleanupSchedule::new();
    let job = state.create_job("mp4".to_string());
    schedule.schedule(100, 3600, job.id, job.input_path());
    assert!(schedule.take_due(3699).is_empty());
    assert_eq!(schedule.len(), 1);
    let due = schedule.take_due(3700);
    assert_eq!(due.len(), 1);
    assert_eq!(due[0].job_id, job.id);
    assert_eq!(due[0].path, format!("input/{}.mp4", uuid::Uuid::from_u128(job.id)));
    for c in &due {
        state.reclaim(c.job_id);
    }
    assert!(!state.contains(job.id));
    assert!(schedule.take_due(u64::MAX).is_empty());
    state.reclaim(job.id);
    assert!(!state.contains(job.id));
}

#[test]
fn sweep_keeps_order_and_pending_items() {
    let mut schedule = CleanupSchedule::new();
    schedule.schedule(0, 50, 1, "a".to_string());
    schedule.schedule(0, 10, 2, "b".to_string());
    schedule.schedule(0, 30, 3, "c".to_string());
    schedule.schedule(u64::MAX - 1, 10, 4, "d".to_string());
    let due = schedule.take_due(40);
    let ids: Vec<u128> = due.iter().map(|c| c.job_id).collect();
    assert_eq!(ids, vec![2, 3]);
    assert_eq!(schedule.len(), 2);
    let rest = schedule.take_due(u64::MAX);
    let ids: Vec<u128> = rest.iter().map(|c| c.job_id).collect();
    assert_eq!(ids, vec![1, 4]);
    assert_eq!(rest[1].due, u64::MAX);
}

#[test]
fn command_line_software_and_hardware() {
    let conv = Converter::new(ConverterFormat::MP4, ConverterFormat::MKV, ConversionSpeed::Fast);
    assert_eq!(conv.speed(), ConversionSpeed::Fast);
    let id: u128 = 0x0123456789abcdef0123456789abcdef;
    let uuid = "01234567-89ab-cdef-0123-456789abcdef";
    let soft = vec!["-c:v".to_string(), "libx264".to_string()];
    let c = conv.command(id, soft, Some("/dev/dri/renderD128".to_string())).unwrap();
    let expect: Vec<String> = vec![
        "-hide_banner",
        "-loglevel",
        "error",
        "-progress",
        "pipe:1",
        "-i",
        &format!("input/{}.mp4", uuid),
        "-c:v",
        "libx264",
        &format!("output/{}.mkv", uuid),
    ]
    .into_iter()
    .map(String::from)
    .collect();
    assert_eq!(c, expect);

    let hard = vec!["-c:v".to_string(), "h264_vaapi".to_string()];
    assert_eq!(conv.command(id, hard.clone(), None).unwrap_err(), ConvertError::NoRenderDevice);
    let c = conv.command(id, hard, Some("/dev/dri/renderD128".to_string())).unwrap();
    assert_eq!(c[5], "-init_hw_device");
    assert_eq!(c[6], "vaapi=hwdevice:/dev/dri/renderD128");
    assert_eq!(c[7], "-filter_hw_device");
    assert_eq!(c[8], "hwdevice");
    assert_eq!(c[9], "-i");
    assert_eq!(c[11], "-vf");
    assert_eq!(c[12], "hwupload,scale_vaapi=format=nv12");
    assert_eq!(c[13], "-c:v");
    assert_eq!(c.last().unwrap(), &format!("output/{}.mkv", uuid));
}

#[test]
fn uuid_text_is_hyphenated_lower_hex() {
    assert_eq!(
        artifact_path("output/", 0x0123456789ABCDEF0123456789ABCDEF, "gif"),
        "output/01234567-89ab-cdef-0123-456789abcdef.gif"
    );
    assert_eq!(artifact_path("input/", 0, "ts"), "input/00000000-0000-0000-0000-000000000000.ts");
}

#[test]
fn tokens_are_fresh_lower_hex() {
    let a = vertd::job::new_auth_token();
    let b = vertd::job::new_auth_token();
    assert_eq!(a.len(), 128);
    assert!(a.chars().all(|c| c.is_ascii_digit() || ('a'..='f').contains(&c)));
    assert_ne!(a, b);
}
