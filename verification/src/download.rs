//! The download command: which episodes are fetched, and what happens to
//! each of them, one stage after the other.

use crate::path::{get_parent, parent_of};
use crate::pipeline::{collect, failures, successes};
use crate::schema::episode::{Episode, EpisodeView};
use crate::schema::podcast::Podcast;
use crate::services::http::{
    http_error_message, HttpClient, HttpError, HttpErrorView, MP3_EXTENSION,
};
use crate::services::options::AppOptionsView;
use crate::services::paths::PathProvider;
use crate::services::podcasts::{
    database_error_message, DatabaseError, DatabaseErrorView, PodcastProvider,
};
use crate::text::{chars_of, opt_text, push_str, string_from_chars};
use crate::utils::resize::{image_error_message, ImageError, ImageErrorView};
use crate::web::{Url, UrlView};
use vstd::prelude::*;

verus! {

/// The width and height of the cover that is set on an episode's file.
pub const IMAGE_SIZE: u32 = 720;

/// The options of the download command.
#[derive(Debug)]
pub struct DownloadOptions {
    /// The id of the podcast to download.
    pub podcast_id: String,
    /// The year to which the download is limited, if any.
    pub year: Option<i32>,
}

/// The command that brings the audio of a podcast into the archive.
#[derive(Debug)]
pub struct DownloadCommand {
    paths: PathProvider,
    http: HttpClient,
    podcasts: PodcastProvider,
}

/// Why the download could not begin.
#[derive(Debug)]
pub enum DownloadError {
    /// The record of the podcast could not be read.
    GetPodcast(DatabaseError),
}

/// What a `DownloadError` holds, as mathematical values.
pub enum DownloadErrorView {
    GetPodcast(DatabaseErrorView),
}

impl View for DownloadError {
    type V = DownloadErrorView;

    open spec fn view(&self) -> DownloadErrorView {
        match self {
            DownloadError::GetPodcast(e) => DownloadErrorView::GetPodcast(e@),
        }
    }
}

/// Why an episode was not processed. Each error carries the file stem of
/// its episode.
#[derive(Debug)]
pub enum ProcessError {
    /// The audio could not be fetched.
    DownloadAudio(String, HttpError),
    /// A directory or file of the archive could not be written.
    IO(String, String, String),
    /// The tags could not be written to the file.
    Tag(String, String, String),
    /// The artwork could not be fetched.
    DownloadImage(String, HttpError),
    /// The task that resizes the artwork did not end.
    Task(String, String),
    /// The artwork could not be resized.
    ResizeImage(String, ImageError),
}

/// What a `ProcessError` holds, as mathematical values.
pub enum ProcessErrorView {
    DownloadAudio(Seq<char>, HttpErrorView),
    IO(Seq<char>, Seq<char>, Seq<char>),
    Tag(Seq<char>, Seq<char>, Seq<char>),
    DownloadImage(Seq<char>, HttpErrorView),
    Task(Seq<char>, Seq<char>),
    ResizeImage(Seq<char>, ImageErrorView),
}

impl View for ProcessError {
    type V = ProcessErrorView;

    open spec fn view(&self) -> ProcessErrorView {
        match self {
            ProcessError::DownloadAudio(stem, e) => ProcessErrorView::DownloadAudio(stem@, e@),
            ProcessError::IO(stem, path, cause) => ProcessErrorView::IO(stem@, path@, cause@),
            ProcessError::Tag(stem, path, cause) => ProcessErrorView::Tag(stem@, path@, cause@),
            ProcessError::DownloadImage(stem, e) => ProcessErrorView::DownloadImage(stem@, e@),
            ProcessError::Task(stem, cause) => ProcessErrorView::Task(stem@, cause@),
            ProcessError::ResizeImage(stem, e) => ProcessErrorView::ResizeImage(stem@, e@),
        }
    }
}

/// An episode and the place of its audio in the archive.
#[derive(Debug)]
pub struct Target {
    pub episode: Episode,
    pub path: String,
}

/// What a `Target` holds, as mathematical values.
pub struct TargetView {
    pub episode: EpisodeView,
    pub path: Seq<char>,
}

impl View for Target {
    type V = TargetView;

    open spec fn view(&self) -> TargetView {
        TargetView { episode: self.episode@, path: self.path@ }
    }
}

/// A target, and whether its file is in the archive already.
#[derive(Debug)]
pub struct Probed {
    pub target: Target,
    pub exists: bool,
}

/// The views of a sequence of targets.
pub open spec fn target_views(targets: Seq<Target>) -> Seq<TargetView> {
    targets.map_values(|t: Target| t@)
}

/// Whether an episode was published in the year, if one is asked for.
pub open spec fn in_year(episode: EpisodeView, year: Option<i32>) -> bool {
    match year {
        Some(y) => episode.published_at.spec_year() == y,
        None => true,
    }
}

/// The episodes of the year, in order, each with its place in the archive.
pub open spec fn candidates(
    options: AppOptionsView,
    podcast_id: Seq<char>,
    episodes: Seq<EpisodeView>,
    year: Option<i32>,
) -> Seq<TargetView>
    decreases episodes.len(),
{
    if episodes.len() == 0 {
        Seq::empty()
    } else {
        let before = candidates(options, podcast_id, episodes.drop_last(), year);
        if in_year(episodes.last(), year) {
            before.push(
                TargetView {
                    episode: episodes.last(),
                    path: PathProvider::output_path_for_audio(options, podcast_id, episodes.last()),
                },
            )
        } else {
            before
        }
    }
}

/// The targets whose file is not in the archive, in order.
pub open spec fn pending(probed: Seq<Probed>) -> Seq<TargetView>
    decreases probed.len(),
{
    if probed.len() == 0 {
        Seq::empty()
    } else {
        let before = pending(probed.drop_last());
        if probed.last().exists {
            before
        } else {
            before.push(probed.last().target@)
        }
    }
}

/// What has happened to an episode.
#[derive(Debug)]
pub enum Event {
    /// Nothing yet.
    Start,
    /// The audio lies in the cache at this path.
    AudioFetched(String),
    /// The audio could not be fetched.
    AudioFailed(HttpError),
    /// The directory of the archive file could not be made.
    DirectoryFailed(String),
    /// The audio could not be copied from this path.
    CopyFailed(String, String),
    /// The audio lies in the archive.
    Copied,
    /// The artwork lies in the cache at this path.
    ImageFetched(String),
    /// The artwork could not be fetched.
    ImageFailed(HttpError),
    /// The task that resizes the artwork did not end.
    TaskFailed(String),
    /// The artwork could not be resized.
    ResizeFailed(ImageError),
    /// The artwork was resized.
    Resized,
    /// The tags could not be written.
    TagFailed(String),
    /// The tags were written.
    Tagged,
}

/// What an `Event` holds, as mathematical values.
pub enum EventView {
    Start,
    AudioFetched(Seq<char>),
    AudioFailed(HttpErrorView),
    DirectoryFailed(Seq<char>),
    CopyFailed(Seq<char>, Seq<char>),
    Copied,
    ImageFetched(Seq<char>),
    ImageFailed(HttpErrorView),
    TaskFailed(Seq<char>),
    ResizeFailed(ImageErrorView),
    Resized,
    TagFailed(Seq<char>),
    Tagged,
}

impl View for Event {
    type V = EventView;

    open spec fn view(&self) -> EventView {
        match self {
            Event::Start => EventView::Start,
            Event::AudioFetched(path) => EventView::AudioFetched(path@),
            Event::AudioFailed(e) => EventView::AudioFailed(e@),
            Event::DirectoryFailed(cause) => EventView::DirectoryFailed(cause@),
            Event::CopyFailed(source, cause) => EventView::CopyFailed(source@, cause@),
            Event::Copied => EventView::Copied,
            Event::ImageFetched(path) => EventView::ImageFetched(path@),
            Event::ImageFailed(e) => EventView::ImageFailed(e@),
            Event::TaskFailed(cause) => EventView::TaskFailed(cause@),
            Event::ResizeFailed(e) => EventView::ResizeFailed(e@),
            Event::Resized => EventView::Resized,
            Event::TagFailed(cause) => EventView::TagFailed(cause@),
            Event::Tagged => EventView::Tagged,
        }
    }
}

/// What is to be done for an episode next.
#[derive(Debug)]
pub enum Work {
    /// Fetch the audio from the URL through the cache, under the extension.
    FetchAudio(Url, String),
    /// Copy the first file to the second, making its directory first.
    Copy(String, String),
    /// Fetch the artwork from the URL through the cache, under the extension.
    FetchImage(Url, Option<String>),
    /// Resize the image at the path to the width and the height.
    Resize(String, u32, u32),
    /// Write the tags, with the cover if one was made, to the file.
    Tag(String),
    /// The episode is done.
    Done,
    /// The episode is given up. The rest of the batch goes on.
    Failed(ProcessError),
}

/// What a `Work` holds, as mathematical values.
pub enum WorkView {
    FetchAudio(UrlView, Seq<char>),
    Copy(Seq<char>, Seq<char>),
    FetchImage(UrlView, Option<Seq<char>>),
    Resize(Seq<char>, u32, u32),
    Tag(Seq<char>),
    Done,
    Failed(ProcessErrorView),
}

impl View for Work {
    type V = WorkView;

    open spec fn view(&self) -> WorkView {
        match self {
            Work::FetchAudio(url, extension) => WorkView::FetchAudio(url@, extension@),
            Work::Copy(source, destination) => WorkView::Copy(source@, destination@),
            Work::FetchImage(url, extension) => WorkView::FetchImage(url@, opt_text(*extension)),
            Work::Resize(path, width, height) => WorkView::Resize(path@, *width, *height),
            Work::Tag(path) => WorkView::Tag(path@),
            Work::Done => WorkView::Done,
            Work::Failed(e) => WorkView::Failed(e@),
        }
    }
}

/// The counts that the command reports.
#[derive(Clone, Copy, Debug, PartialEq, Eq, Structural)]
pub struct Summary {
    /// The number of episodes that were processed.
    pub downloaded: usize,
    /// The number of episodes that were given up.
    pub skipped: usize,
}

impl DownloadCommand {
    /// The options from which the archive's paths are derived.
    pub closed spec fn paths(&self) -> AppOptionsView {
        self.paths@
    }

    /// The directory of the cache.
    pub closed spec fn http(&self) -> Seq<char> {
        self.http@
    }

    /// The directory of the records.
    pub closed spec fn podcasts(&self) -> Seq<char> {
        self.podcasts@
    }

    /// The extension of the artwork's URL, if it has one.
    pub open spec fn image_extension(url: UrlView) -> Option<Seq<char>> {
        match Url::file_name(url) {
            Some(name) => crate::path::extension_of(name),
            None => None,
        }
    }

    /// What follows an event in the processing of an episode: the audio is
    /// fetched, copied into the archive, the artwork is fetched and resized
    /// where the episode has any, and the tags are written. A failure ends the
    /// episode with an error that carries its file stem.
    pub open spec fn work_after(
        options: AppOptionsView,
        podcast_id: Seq<char>,
        episode: EpisodeView,
        event: EventView,
    ) -> WorkView {
        let stem = Episode::spec_file_stem(episode);
        let destination = PathProvider::output_path_for_audio(options, podcast_id, episode);
        match event {
            EventView::Start => WorkView::FetchAudio(episode.audio_url, MP3_EXTENSION@),
            EventView::AudioFetched(source) => WorkView::Copy(source, destination),
            EventView::AudioFailed(e) => WorkView::Failed(ProcessErrorView::DownloadAudio(stem, e)),
            EventView::DirectoryFailed(cause) => WorkView::Failed(
                ProcessErrorView::IO(stem, parent_of(destination), cause),
            ),
            EventView::CopyFailed(source, cause) => WorkView::Failed(
                ProcessErrorView::IO(stem, source, cause),
            ),
            EventView::Copied => match episode.image_url {
                Some(url) => WorkView::FetchImage(url, Self::image_extension(url)),
                None => WorkView::Tag(destination),
            },
            EventView::ImageFetched(path) => WorkView::Resize(path, IMAGE_SIZE, IMAGE_SIZE),
            EventView::ImageFailed(e) => WorkView::Failed(ProcessErrorView::DownloadImage(stem, e)),
            EventView::TaskFailed(cause) => WorkView::Failed(ProcessErrorView::Task(stem, cause)),
            EventView::ResizeFailed(e) => WorkView::Failed(ProcessErrorView::ResizeImage(stem, e)),
            EventView::Resized => WorkView::Tag(destination),
            EventView::TagFailed(cause) => WorkView::Failed(
                ProcessErrorView::Tag(stem, destination, cause),
            ),
            EventView::Tagged => WorkView::Done,
        }
    }

    /// A command over the services that it is given.
    #[must_use]
    pub fn new(paths: PathProvider, http: HttpClient, podcasts: PodcastProvider) -> (command: Self)
        ensures
            command.paths() == paths@,
            command.http() == http@,
            command.podcasts() == podcasts@,
    {
        Self { paths, http, podcasts }
    }

    /// The paths of the archive.
    pub fn get_paths(&self) -> (paths: &PathProvider)
        ensures
            paths@ == self.paths(),
    {
        &self.paths
    }

    /// The cache.
    pub fn get_http(&self) -> (http: &HttpClient)
        ensures
            http@ == self.http(),
    {
        &self.http
    }

    /// The records.
    pub fn get_podcasts(&self) -> (podcasts: &PodcastProvider)
        ensures
            podcasts@ == self.podcasts(),
    {
        &self.podcasts
    }

    /// Counts what a batch produced: the episodes that were processed, and
    /// those that were given up. Failures end nothing: the command succeeds
    /// with the counts of both.
    pub fn execute(&self, results: Vec<Result<Episode, ProcessError>>) -> (summary: Summary)
        ensures
            summary.downloaded == successes(results@).len(),
            summary.skipped == failures(results@).len(),
            summary.downloaded + summary.skipped == results@.len(),
    {
        let batch = collect(results);
        Summary { downloaded: batch.outputs.len(), skipped: batch.failures.len() }
    }

    /// The episodes of the podcast that fall in the year, where one is
    /// given, each with the place of its audio in the archive.
    pub fn candidates(&self, podcast: &Podcast, year: Option<i32>) -> (targets: Vec<Target>)
        ensures
            target_views(targets@) == candidates(
                self.paths(),
                podcast@.id,
                podcast@.episodes,
                year,
            ),
    {
        let mut targets: Vec<Target> = Vec::new();
        let ghost all = podcast@.episodes;
        let mut i: usize = 0;
        while i < podcast.episodes.len()
            invariant
                i <= podcast.episodes.len(),
                all == podcast@.episodes,
                all.len() == podcast.episodes.len(),
                target_views(targets@) == candidates(
                    self.paths(),
                    podcast@.id,
                    all.take(i as int),
                    year,
                ),
            decreases podcast.episodes.len() - i,
        {
            let episode = &podcast.episodes[i];
            proof {
                assert(all.take(i + 1).drop_last() == all.take(i as int));
            }
            let wanted = match year {
                Some(y) => episode.published_at.year() == y,
                None => true,
            };
            if wanted {
                let path = self.paths.get_output_path_for_audio(podcast.id.as_str(), episode);
                let target = Target { episode: episode.duplicate(), path };
                targets.push(target);
            }
            i += 1;
        }
        assert(all.take(all.len() as int) == all);
        targets
    }

    /// The targets that are left to process: those whose file is not in the
    /// archive yet. An episode that is there is not fetched again.
    pub fn process_episodes(&self, probed: Vec<Probed>) -> (targets: Vec<Target>)
        ensures
            target_views(targets@) == pending(probed@),
    {
        let mut targets: Vec<Target> = Vec::new();
        let ghost all = probed@;
        for item in it: probed
            invariant
                it.seq() == all,
                target_views(targets@) == pending(all.take(it.index() as int)),
        {
            proof {
                let i = it.index() as int;
                assert(all.take(i + 1).drop_last() == all.take(i));
            }
            if !item.exists {
                targets.push(item.target);
            }
        }
        assert(all.take(all.len() as int) == all);
        targets
    }

    /// The first stage: the audio is fetched from the episode's URL, and
    /// cached as MP3.
    pub fn download_episode(&self, episode: &Episode) -> (work: Work)
        ensures
            work@ == WorkView::FetchAudio(episode@.audio_url, MP3_EXTENSION@),
    {
        Work::FetchAudio(episode.audio_url.duplicate(), MP3_EXTENSION.to_owned())
    }

    /// The second stage: the cached audio is copied to the episode's place in
    /// the archive.
    pub fn copy_episode(&self, podcast_id: &str, episode: &Episode, source_path: String) -> (work:
        Work)
        ensures
            work@ == WorkView::Copy(
                source_path@,
                PathProvider::output_path_for_audio(self.paths(), podcast_id@, episode@),
            ),
    {
        let destination_path = self.paths.get_output_path_for_audio(podcast_id, episode);
        Work::Copy(source_path, destination_path)
    }

    /// The third stage: the artwork is fetched where the episode has any,
    /// under the extension of its URL; else the tags are written at once.
    pub fn download_image(&self, podcast_id: &str, episode: &Episode) -> (work: Work)
        ensures
            work@ == (match episode@.image_url {
                Some(url) => WorkView::FetchImage(url, Self::image_extension(url)),
                None => WorkView::Tag(
                    PathProvider::output_path_for_audio(self.paths(), podcast_id@, episode@),
                ),
            }),
    {
        match &episode.image_url {
            Some(url) => Work::FetchImage(url.duplicate(), url.get_extension()),
            None => Work::Tag(self.paths.get_output_path_for_audio(podcast_id, episode)),
        }
    }

    /// Decides what follows an event in the processing of an episode.
    pub fn process_episode(&self, podcast_id: &str, episode: &Episode, event: Event) -> (work: Work)
        ensures
            work@ == Self::work_after(self.paths(), podcast_id@, episode@, event@),
    {
        match event {
            Event::Start => self.download_episode(episode),
            Event::AudioFetched(source) => self.copy_episode(podcast_id, episode, source),
            Event::AudioFailed(e) => Work::Failed(
                ProcessError::DownloadAudio(episode.get_file_stem(), e),
            ),
            Event::DirectoryFailed(cause) => {
                let destination = self.paths.get_output_path_for_audio(podcast_id, episode);
                Work::Failed(
                    ProcessError::IO(
                        episode.get_file_stem(),
                        get_parent(destination.as_str()),
                        cause,
                    ),
                )
            },
            Event::CopyFailed(source, cause) => Work::Failed(
                ProcessError::IO(episode.get_file_stem(), source, cause),
            ),
            Event::Copied => self.download_image(podcast_id, episode),
            Event::ImageFetched(path) => Work::Resize(path, IMAGE_SIZE, IMAGE_SIZE),
            Event::ImageFailed(e) => Work::Failed(
                ProcessError::DownloadImage(episode.get_file_stem(), e),
            ),
            Event::TaskFailed(cause) => Work::Failed(
                ProcessError::Task(episode.get_file_stem(), cause),
            ),
            Event::ResizeFailed(e) => Work::Failed(
                ProcessError::ResizeImage(episode.get_file_stem(), e),
            ),
            Event::Resized => Work::Tag(
                self.paths.get_output_path_for_audio(podcast_id, episode),
            ),
            Event::TagFailed(cause) => Work::Failed(
                ProcessError::Tag(
                    episode.get_file_stem(),
                    self.paths.get_output_path_for_audio(podcast_id, episode),
                    cause,
                ),
            ),
            Event::Tagged => Work::Done,
        }
    }
}

/// The file stem that an error carries.
pub open spec fn error_stem(error: ProcessErrorView) -> Seq<char> {
    match error {
        ProcessErrorView::DownloadAudio(stem, _) => stem,
        ProcessErrorView::IO(stem, _, _) => stem,
        ProcessErrorView::Tag(stem, _, _) => stem,
        ProcessErrorView::DownloadImage(stem, _) => stem,
        ProcessErrorView::Task(stem, _) => stem,
        ProcessErrorView::ResizeImage(stem, _) => stem,
    }
}

/// Whatever stage fails, the error names the episode: it carries the
/// episode's file stem. And only an event that reports a failure ends an
/// episode with an error.
pub proof fn lemma_failure_names_the_episode(
    options: AppOptionsView,
    podcast_id: Seq<char>,
    episode: EpisodeView,
    event: EventView,
)
    ensures
        DownloadCommand::work_after(options, podcast_id, episode, event) matches WorkView::Failed(
            error,
        ) ==> error_stem(error) == Episode::spec_file_stem(episode),
        DownloadCommand::work_after(options, podcast_id, episode, event) is Failed <==> (event
            is AudioFailed || event is DirectoryFailed || event is CopyFailed || event
            is ImageFailed || event is TaskFailed || event is ResizeFailed || event is TagFailed),
{
}

/// A second run fetches nothing: where the file of every target is in the
/// archive, no target is left to process.
pub proof fn lemma_rerun_fetches_nothing(probed: Seq<Probed>)
    requires
        forall|i: int| 0 <= i < probed.len() ==> (#[trigger] probed[i]).exists,
    ensures
        pending(probed).len() == 0,
    decreases probed.len(),
{
    if probed.len() > 0 {
        let rest = probed.drop_last();
        assert(forall|i: int| 0 <= i < rest.len() ==> (#[trigger] rest[i]).exists);
        lemma_rerun_fetches_nothing(rest);
    }
}

/// What the user reads of a `ProcessError`.
pub open spec fn process_error_message(error: ProcessErrorView) -> Seq<char> {
    match error {
        ProcessErrorView::DownloadAudio(stem, e) =>
            "Unable to download audio for episode: "@ + stem + "\n"@ + http_error_message(e),
        ProcessErrorView::IO(stem, path, cause) =>
            "An I/O error occurred while processing episode: "@ + stem + "\nPath: "@ + path
            + "\n"@ + cause,
        ProcessErrorView::Tag(stem, path, cause) =>
            "A tag error occurred while processing episode: "@ + stem + "\nPath: "@ + path + "\n"@
            + cause,
        ProcessErrorView::DownloadImage(stem, e) =>
            "Unable to download image for episode: "@ + stem + "\n"@ + http_error_message(e),
        ProcessErrorView::Task(stem, cause) =>
            "Unable to resize image for episode: "@ + stem + "\nA task error occurred:\n"@ + cause,
        ProcessErrorView::ResizeImage(stem, e) =>
            "Unable to resize image for episode: "@ + stem + "\n"@ + image_error_message(e),
    }
}

impl ProcessError {
    /// Writes the error out for the user.
    pub fn message(&self) -> (text: String)
        ensures
            text@ == process_error_message(self@),
    {
        match self {
            ProcessError::DownloadAudio(stem, e) => {
                let mut out = chars_of("Unable to download audio for episode: ");
                push_str(&mut out, stem.as_str());
                push_str(&mut out, "\n");
                push_str(&mut out, e.message().as_str());
                string_from_chars(&out)
            },
            ProcessError::IO(stem, path, cause) => {
                let mut out = chars_of("An I/O error occurred while processing episode: ");
                push_str(&mut out, stem.as_str());
                push_str(&mut out, "\nPath: ");
                push_str(&mut out, path.as_str());
                push_str(&mut out, "\n");
                push_str(&mut out, cause.as_str());
                string_from_chars(&out)
            },
            ProcessError::Tag(stem, path, cause) => {
                let mut out = chars_of("A tag error occurred while processing episode: ");
                push_str(&mut out, stem.as_str());
                push_str(&mut out, "\nPath: ");
                push_str(&mut out, path.as_str());
                push_str(&mut out, "\n");
                push_str(&mut out, cause.as_str());
                string_from_chars(&out)
            },
            ProcessError::DownloadImage(stem, e) => {
                let mut out = chars_of("Unable to download image for episode: ");
                push_str(&mut out, stem.as_str());
                push_str(&mut out, "\n");
                push_str(&mut out, e.message().as_str());
                string_from_chars(&out)
            },
            ProcessError::Task(stem, cause) => {
                let mut out = chars_of("Unable to resize image for episode: ");
                push_str(&mut out, stem.as_str());
                push_str(&mut out, "\nA task error occurred:\n");
                push_str(&mut out, cause.as_str());
                string_from_chars(&out)
            },
            ProcessError::ResizeImage(stem, e) => {
                let mut out = chars_of("Unable to resize image for episode: ");
                push_str(&mut out, stem.as_str());
                push_str(&mut out, "\n");
                push_str(&mut out, e.message().as_str());
                string_from_chars(&out)
            },
        }
    }
}

/// What the user reads of a `DownloadError`.
pub open spec fn download_error_message(error: DownloadErrorView) -> Seq<char> {
    match error {
        DownloadErrorView::GetPodcast(e) =>
            "Failed to download\nUnable to get podcast\n"@ + database_error_message(e),
    }
}

impl DownloadError {
    /// Writes the error out for the user.
    pub fn message(&self) -> (text: String)
        ensures
            text@ == download_error_message(self@),
    {
        match self {
            DownloadError::GetPodcast(e) => {
                let mut out = chars_of("Failed to download\nUnable to get podcast\n");
                push_str(&mut out, e.message().as_str());
                string_from_chars(&out)
            },
        }
    }
}

} // verus!
