use ytcli::application::DownloadVideoUseCase;
use ytcli::domain::{Downloader, Video};

struct MockDownloader {
    pub called: std::cell::Cell<bool>,
    pub should_fail: bool,
}

impl Downloader for MockDownloader {
    fn download(&self, _video: &Video) -> Result<(), String> {
        self.called.set(true);
        if self.should_fail {
            Err("mock error".to_string())
        } else {
            Ok(())
        }
    }
}

struct CountingDownloader {
    calls: std::cell::Cell<u32>,
    seen_url: std::cell::RefCell<String>,
    answer: Result<(), String>,
}

impl Downloader for CountingDownloader {
    fn download(&self, video: &Video) -> Result<(), String> {
        self.calls.set(self.calls.get() + 1);
        *self.seen_url.borrow_mut() = video.url.clone();
        self.answer.clone()
    }
}

#[test]
fn test_download_video_usecase_calls_downloader() {
    let mock = MockDownloader { called: std::cell::Cell::new(false), should_fail: false };
    let usecase = DownloadVideoUseCase { downloader: &mock };
    let video = Video {
        url: "https://example.com".to_string(),
        output: Some("output".to_string()),
        quality: "best".to_string(),
        audio_only: false,
        file_type: Some("mp4".to_string()),
    };
    let result = usecase.execute(&video);
    assert!(result.is_ok());
    assert!(mock.called.get());
}

#[test]
fn test_download_video_usecase_error_propagation() {
    let mock = MockDownloader { called: std::cell::Cell::new(false), should_fail: true };
    let usecase = DownloadVideoUseCase { downloader: &mock };
    let video = Video {
        url: "https://fail.com".to_string(),
        output: None,
        quality: "worst".to_string(),
        audio_only: false,
        file_type: Some("webm".to_string()),
    };
    let result = usecase.execute(&video);
    assert!(result.is_err());
    assert!(mock.called.get());
}

#[test]
fn test_download_video_usecase_audio_only() {
    let mock = MockDownloader { called: std::cell::Cell::new(false), should_fail: false };
    let usecase = DownloadVideoUseCase { downloader: &mock };
    let video = Video {
        url: "https://audio.com".to_string(),
        output: Some("audiofile".to_string()),
        quality: "best".to_string(),
        audio_only: true,
        file_type: Some("mp3".to_string()),
    };
    let result = usecase.execute(&video);
    assert!(result.is_ok());
    assert!(mock.called.get());
}

fn sample_video() -> Video {
    Video {
        url: "https://x/y".to_string(),
        output: None,
        quality: "best".to_string(),
        audio_only: false,
        file_type: None,
    }
}

#[test]
fn execute_forwards_one_call_and_its_error_unchanged() {
    let d = CountingDownloader {
        calls: std::cell::Cell::new(0),
        seen_url: std::cell::RefCell::new(String::new()),
        answer: Err("disk full".to_string()),
    };
    let usecase = DownloadVideoUseCase { downloader: &d };
    let result = usecase.execute(&sample_video());
    assert_eq!(result, Err("disk full".to_string()));
    assert_eq!(d.calls.get(), 1);
    assert_eq!(d.seen_url.borrow().as_str(), "https://x/y");
}

#[test]
fn execute_forwards_one_call_and_its_success_unchanged() {
    let d = CountingDownloader {
        calls: std::cell::Cell::new(0),
        seen_url: std::cell::RefCell::new(String::new()),
        answer: Ok(()),
    };
    let usecase = DownloadVideoUseCase { downloader: &d };
    assert_eq!(usecase.execute(&sample_video()), Ok(()));
    assert_eq!(d.calls.get(), 1);
}
