//! Answering a request for an image of a work.
//!
//! The library does no input or output. A request is a `Session` that moves
//! in steps: each step names an `Action` that the caller carries out, and
//! the caller hands what came of it back as an `Event`. `next` says, for
//! every session and event, which session and action follow.

use crate::cache::{
    cache_key, cache_key_text, remembered, CacheWrite, CacheWriteView, CACHE_TTL_SECONDS,
};
use crate::error::{unavailable_text, AppError, AppErrorView};
use crate::fetch::{
    find_delivered, first_delivered, lemma_first_delivered, FetchReply, ProbeReply,
};
use crate::metadata::{
    opt_text, resolve_metadata, resolved_metadata, ArtworkMetadata, ArtworkMetadataView,
    MetadataReply, MetadataReplyView,
};
use crate::response::{resolved_at, Resolved, ResolvedView};
use crate::text::{parse_u32, parsed_u32};
use crate::url::{
    candidate_address, candidate_base, candidate_base_of, candidate_url, indexed_address,
    indexed_url, metadata_address, metadata_url, page_name, page_token, referer, referer_address,
    Extension,
};
use vstd::prelude::*;
use vstd::string::*;

verus! {

// ---------------------------------------------------------------------------
// Sessions, events and actions
// ---------------------------------------------------------------------------

/// How far the answer to a request has come.
#[derive(Debug, PartialEq, Eq)]
pub enum Stage {
    /// Waiting for the connection to the store of remembered addresses.
    Connecting,
    /// Waiting for what the store remembers of the image.
    Lookup,
    /// Waiting for the file at the remembered address `url`.
    Verifying { url: String },
    /// Waiting for the store to drop an address that has gone stale.
    Invalidating,
    /// Waiting for the metadata of the work.
    Metadata,
    /// Waiting for the file at `url`, the address derived from the known
    /// address of the first image.
    Fetching { url: String },
    /// Waiting for the answers to the three guesses built on `base`.
    Probing { base: String },
    /// The request is answered.
    Done,
}

/// `Stage` as a mathematical value.
pub enum StageView {
    Connecting,
    Lookup,
    Verifying { url: Seq<char> },
    Invalidating,
    Metadata,
    Fetching { url: Seq<char> },
    Probing { base: Seq<char> },
    Done,
}

impl View for Stage {
    type V = StageView;

    open spec fn view(&self) -> StageView {
        match *self {
            Stage::Connecting => StageView::Connecting,
            Stage::Lookup => StageView::Lookup,
            Stage::Verifying { url } => StageView::Verifying { url: url@ },
            Stage::Invalidating => StageView::Invalidating,
            Stage::Metadata => StageView::Metadata,
            Stage::Fetching { url } => StageView::Fetching { url: url@ },
            Stage::Probing { base } => StageView::Probing { base: base@ },
            Stage::Done => StageView::Done,
        }
    }
}

/// A request for image `index` of work `work_id`, and how far its answer
/// has come. Images are counted from one.
#[derive(Debug, PartialEq, Eq)]
pub struct Session {
    pub work_id: u32,
    pub index: u16,
    pub stage: Stage,
}

/// `Session` as a mathematical value.
pub struct SessionView {
    pub work_id: u32,
    pub index: u16,
    pub stage: StageView,
}

impl View for Session {
    type V = SessionView;

    open spec fn view(&self) -> SessionView {
        SessionView { work_id: self.work_id, index: self.index, stage: self.stage@ }
    }
}

/// What came of an action. `B` is the type of a file's contents, which the
/// library passes on without looking into it.
#[derive(Debug, PartialEq, Eq)]
pub enum Event<B> {
    /// Whether the store of remembered addresses could be reached.
    Connected { ok: bool },
    /// What the store remembers under the key that was asked; nothing where
    /// it holds no entry or could not be read.
    CacheValue { url: Option<String> },
    /// The store was told to drop the entry, whether it did or not.
    CacheCleared,
    /// The service's reply to the question after the work.
    Metadata { answer: MetadataReply },
    /// The answer to the request for one file.
    Fetched { reply: FetchReply<B> },
    /// The answers to the guesses, in the order in which they arrived.
    Probed { replies: Vec<ProbeReply<B>> },
}

/// `Event` as a mathematical value.
pub enum EventView<B> {
    Connected { ok: bool },
    CacheValue { url: Option<Seq<char>> },
    CacheCleared,
    Metadata { answer: MetadataReplyView },
    Fetched { reply: FetchReply<B> },
    Probed { replies: Seq<ProbeReply<B>> },
}

impl<B> View for Event<B> {
    type V = EventView<B>;

    open spec fn view(&self) -> EventView<B> {
        match *self {
            Event::Connected { ok } => EventView::Connected { ok },
            Event::CacheValue { url } => EventView::CacheValue { url: opt_text(url) },
            Event::CacheCleared => EventView::CacheCleared,
            Event::Metadata { answer } => EventView::Metadata { answer: answer@ },
            Event::Fetched { reply } => EventView::Fetched { reply },
            Event::Probed { replies } => EventView::Probed { replies: replies@ },
        }
    }
}

/// What the caller is to do next.
#[derive(Debug, PartialEq, Eq)]
pub enum Action<B> {
    /// Connect to the store of remembered addresses.
    ConnectCache,
    /// Read what the store holds under `key`.
    LookupCache { key: String },
    /// Delete what the store holds under `key`.
    DeleteCache { key: String },
    /// Ask the service for the work's metadata at `url`, with the header
    /// `Accept-Language` set to `accept_language`.
    FetchMetadata { url: String, accept_language: String },
    /// Ask for the file at `url`, with the header `Referer` set to `referer`.
    Fetch { url: String, referer: String },
    /// Ask for the files at the three addresses at once, each with the
    /// header `Referer` set to `referer`.
    Probe { jpg: String, png: String, gif: String, referer: String },
    /// Answer the request with `outcome`; where `remember` holds a write,
    /// hand it to the store without waiting for it.
    Finish { outcome: Result<Resolved<B>, AppError>, remember: Option<CacheWrite> },
}

/// `Action` as a mathematical value.
pub enum ActionView<B> {
    ConnectCache,
    LookupCache { key: Seq<char> },
    DeleteCache { key: Seq<char> },
    FetchMetadata { url: Seq<char>, accept_language: Seq<char> },
    Fetch { url: Seq<char>, referer: Seq<char> },
    Probe { jpg: Seq<char>, png: Seq<char>, gif: Seq<char>, referer: Seq<char> },
    Finish { outcome: Result<ResolvedView<B>, AppErrorView>, remember: Option<CacheWriteView> },
}

impl<B> View for Action<B> {
    type V = ActionView<B>;

    open spec fn view(&self) -> ActionView<B> {
        match *self {
            Action::ConnectCache => ActionView::ConnectCache,
            Action::LookupCache { key } => ActionView::LookupCache { key: key@ },
            Action::DeleteCache { key } => ActionView::DeleteCache { key: key@ },
            Action::FetchMetadata { url, accept_language } => ActionView::FetchMetadata {
                url: url@,
                accept_language: accept_language@,
            },
            Action::Fetch { url, referer } => ActionView::Fetch { url: url@, referer: referer@ },
            Action::Probe { jpg, png, gif, referer } => ActionView::Probe {
                jpg: jpg@,
                png: png@,
                gif: gif@,
                referer: referer@,
            },
            Action::Finish { outcome, remember } => ActionView::Finish {
                outcome: match outcome {
                    Ok(found) => Ok(found@),
                    Err(error) => Err(error@),
                },
                remember: match remember {
                    Some(write) => Some(write@),
                    None => None,
                },
            },
        }
    }
}

// ---------------------------------------------------------------------------
// The course of a request
// ---------------------------------------------------------------------------

impl SessionView {
    /// The same request at another stage.
    pub open spec fn at(self, stage: StageView) -> SessionView {
        SessionView { work_id: self.work_id, index: self.index, stage }
    }

    /// The name given to the image where its address has none to offer.
    pub open spec fn fallback_name(self) -> Seq<char> {
        page_token(self.work_id, (self.index - 1) as nat)
    }

    /// The request ends in failure.
    pub open spec fn fail<B>(self, error: AppErrorView) -> (SessionView, ActionView<B>) {
        (self.at(StageView::Done), ActionView::Finish { outcome: Err(error), remember: None })
    }

    /// The request ends with the file `bytes` found at `url`. The address is
    /// remembered where `fresh` says that it was newly worked out.
    pub open spec fn succeed<B>(self, url: Seq<char>, bytes: B, fresh: bool) -> (
        SessionView,
        ActionView<B>,
    ) {
        (
            self.at(StageView::Done),
            ActionView::Finish {
                outcome: Ok(resolved_at(url, self.fallback_name(), bytes)),
                remember: if fresh {
                    Some(remembered(self.work_id, self.index, url))
                } else {
                    None
                },
            },
        )
    }

    /// The request goes on to ask the service about the work.
    pub open spec fn ask_metadata<B>(self) -> (SessionView, ActionView<B>) {
        (self.at(StageView::Metadata), metadata_question(self.work_id))
    }

    /// What follows once the metadata is known: a request beyond the last
    /// image fails; where the address of the first image is known, the file
    /// is asked at the address derived from it; where only a thumbnail is
    /// known, the three guesses built on it are asked; where neither is
    /// known the work is unavailable.
    pub open spec fn with_metadata<B>(self, metadata: ArtworkMetadataView) -> (
        SessionView,
        ActionView<B>,
    ) {
        if self.index > metadata.max_index() {
            self.fail(AppErrorView::TooHighQuery { max: metadata.max_index() })
        } else {
            match metadata.original_url {
                Some(first) => {
                    let url = indexed_address(first, self.work_id, self.index);
                    (
                        self.at(StageView::Fetching { url }),
                        ActionView::Fetch { url, referer: referer_address(self.work_id) },
                    )
                },
                None => match metadata.fallback_thumbnail_url {
                    Some(thumbnail) => {
                        let base = candidate_base_of(thumbnail, self.work_id, self.index);
                        (
                            self.at(StageView::Probing { base }),
                            ActionView::Probe {
                                jpg: candidate_address(base, Extension::Jpg),
                                png: candidate_address(base, Extension::Png),
                                gif: candidate_address(base, Extension::Gif),
                                referer: referer_address(self.work_id),
                            },
                        )
                    },
                    None => self.fail(
                        AppErrorView::ArtworkUnavailable { message: unavailable_text() },
                    ),
                },
            }
        }
    }
}

/// How a request begins: image zero is refused at once; any other request
/// starts by connecting to the store of remembered addresses.
pub open spec fn begun<B>(work_id: u32, index: u16) -> (SessionView, ActionView<B>) {
    let session = SessionView { work_id, index, stage: StageView::Connecting };
    if index == 0 {
        session.fail(AppErrorView::ZeroQuery)
    } else {
        (session, ActionView::ConnectCache)
    }
}

/// The session and the action that follow when `event` reaches `session`.
///
/// - A session for image zero fails with `ZeroQuery`, whatever arrives.
/// - A store that cannot be reached fails the request with `Internal`; one
///   that can is asked for the image's remembered address.
/// - A remembered address is asked for its file; without one, the service
///   is asked about the work.
/// - The file at a remembered address ends the request, and nothing is
///   written to the store. If nothing is at that address, the store is told
///   to drop the entry, and after that the service is asked about the work.
///   Any other answer fails the request.
/// - The service's reply either fails the request or leads on as
///   `with_metadata` says.
/// - The file at a derived address ends the request and the address is
///   remembered. If nothing is at that address, the work is unavailable;
///   any other answer fails the request as it stands.
/// - Of the answers to the guesses the first that carries the file ends the
///   request, and the address that it belongs to is remembered; without one
///   the work is unavailable.
/// - An event that the stage does not wait for fails the request with
///   `Internal`.
pub open spec fn next<B>(session: SessionView, event: EventView<B>) -> (SessionView, ActionView<B>) {
    if session.index == 0 {
        session.fail(AppErrorView::ZeroQuery)
    } else {
        match (session.stage, event) {
            (StageView::Connecting, EventView::Connected { ok }) => if ok {
                (
                    session.at(StageView::Lookup),
                    ActionView::LookupCache {
                        key: cache_key_text(session.work_id, session.index),
                    },
                )
            } else {
                session.fail(AppErrorView::Internal)
            },
            (StageView::Lookup, EventView::CacheValue { url: Some(url) }) => (
                session.at(StageView::Verifying { url }),
                ActionView::Fetch { url, referer: referer_address(session.work_id) },
            ),
            (StageView::Lookup, EventView::CacheValue { url: None }) => session.ask_metadata(),
            (StageView::Verifying { url }, EventView::Fetched { reply }) => match reply.outcome() {
                Ok(bytes) => session.succeed(url, bytes, false),
                Err(AppErrorView::WrongArtworkUrl) => (
                    session.at(StageView::Invalidating),
                    ActionView::DeleteCache {
                        key: cache_key_text(session.work_id, session.index),
                    },
                ),
                Err(error) => session.fail(error),
            },
            (StageView::Invalidating, EventView::CacheCleared) => session.ask_metadata(),
            (StageView::Metadata, EventView::Metadata { answer }) => match resolved_metadata(
                session.work_id,
                answer,
            ) {
                Ok(metadata) => session.with_metadata(metadata),
                Err(error) => session.fail(error),
            },
            (StageView::Fetching { url }, EventView::Fetched { reply }) => match reply.outcome() {
                Ok(bytes) => session.succeed(url, bytes, true),
                Err(AppErrorView::WrongArtworkUrl) => session.fail(
                    AppErrorView::ArtworkUnavailable { message: unavailable_text() },
                ),
                Err(error) => session.fail(error),
            },
            (StageView::Probing { base }, EventView::Probed { replies }) => match first_delivered(
                replies,
            ) {
                Some(at) => session.succeed(
                    candidate_address(base, replies[at].extension),
                    replies[at].reply->body,
                    true,
                ),
                None => session.fail(
                    AppErrorView::ArtworkUnavailable { message: unavailable_text() },
                ),
            },
            _ => session.fail(AppErrorView::Internal),
        }
    }
}

fn fail<B>(work_id: u32, index: u16, error: AppError) -> (step: (Session, Action<B>))
    ensures
        (step.0@, step.1@) == (SessionView { work_id, index, stage: StageView::Done }).fail::<B>(
            error@,
        ),
{
    (
        Session { work_id, index, stage: Stage::Done },
        Action::Finish { outcome: Err(error), remember: None },
    )
}

fn succeed<B>(work_id: u32, index: u16, url: String, bytes: B, fresh: bool) -> (step: (
    Session,
    Action<B>,
))
    requires
        index >= 1,
    ensures
        (step.0@, step.1@) == (SessionView { work_id, index, stage: StageView::Done }).succeed(
            url@,
            bytes,
            fresh,
        ),
{
    let remember = if fresh {
        Some(
            CacheWrite {
                key: cache_key(work_id, index),
                url: url.clone(),
                ttl_seconds: CACHE_TTL_SECONDS,
            },
        )
    } else {
        None
    };
    let found = Resolved::at(url, page_name(work_id, index - 1), bytes);
    (
        Session { work_id, index, stage: Stage::Done },
        Action::Finish { outcome: Ok(found), remember },
    )
}

fn ask_metadata<B>(work_id: u32, index: u16) -> (step: (Session, Action<B>))
    ensures
        (step.0@, step.1@) == (SessionView {
            work_id,
            index,
            stage: StageView::Done,
        }).ask_metadata::<B>(),
{
    (Session { work_id, index, stage: Stage::Metadata }, metadata_request(work_id))
}

fn with_metadata<B>(work_id: u32, index: u16, metadata: ArtworkMetadata) -> (step: (
    Session,
    Action<B>,
))
    requires
        index >= 1,
    ensures
        (step.0@, step.1@) == (SessionView {
            work_id,
            index,
            stage: StageView::Done,
        }).with_metadata::<B>(metadata@),
{
    let max = metadata.max_index();
    if index > max {
        return fail(work_id, index, AppError::TooHighQuery { max });
    }
    match &metadata.original_url {
        Some(first) => {
            let url = indexed_url(first.as_str(), work_id, index);
            (
                Session { work_id, index, stage: Stage::Fetching { url: url.clone() } },
                Action::Fetch { url, referer: referer(work_id) },
            )
        },
        None => match &metadata.fallback_thumbnail_url {
            Some(thumbnail) => {
                let base = candidate_base(thumbnail.as_str(), work_id, index);
                let jpg = candidate_url(base.as_str(), Extension::Jpg);
                let png = candidate_url(base.as_str(), Extension::Png);
                let gif = candidate_url(base.as_str(), Extension::Gif);
                (
                    Session { work_id, index, stage: Stage::Probing { base } },
                    Action::Probe { jpg, png, gif, referer: referer(work_id) },
                )
            },
            None => fail(work_id, index, AppError::unavailable(None)),
        },
    }
}

/// Begins the answer to a request for image `index` of work `work_id`.
pub fn source<B>(work_id: u32, index: u16) -> (step: (Session, Action<B>))
    ensures
        (step.0@, step.1@) == begun::<B>(work_id, index),
{
    if index == 0 {
        fail(work_id, index, AppError::ZeroQuery)
    } else {
        (Session { work_id, index, stage: Stage::Connecting }, Action::ConnectCache)
    }
}

impl Session {
    /// Whether the request is answered.
    pub fn is_done(&self) -> (done: bool)
        ensures
            done == (self@.stage is Done),
    {
        match self.stage {
            Stage::Done => true,
            _ => false,
        }
    }

    /// Takes in what came of the last action and says what to do next.
    pub fn step<B>(self, event: Event<B>) -> (step: (Session, Action<B>))
        ensures
            (step.0@, step.1@) == next(self@, event@),
    {
        let Session { work_id, index, stage } = self;
        if index == 0 {
            return fail(work_id, index, AppError::ZeroQuery);
        }
        match stage {
            Stage::Connecting => match event {
                Event::Connected { ok } => {
                    if ok {
                        (
                            Session { work_id, index, stage: Stage::Lookup },
                            Action::LookupCache { key: cache_key(work_id, index) },
                        )
                    } else {
                        fail(work_id, index, AppError::Internal)
                    }
                },
                _ => fail(work_id, index, AppError::Internal),
            },
            Stage::Lookup => match event {
                Event::CacheValue { url } => match url {
                    Some(url) => (
                        Session { work_id, index, stage: Stage::Verifying { url: url.clone() } },
                        Action::Fetch { url, referer: referer(work_id) },
                    ),
                    None => ask_metadata(work_id, index),
                },
                _ => fail(work_id, index, AppError::Internal),
            },
            Stage::Verifying { url } => match event {
                Event::Fetched { reply } => match reply.into_result() {
                    Ok(bytes) => succeed(work_id, index, url, bytes, false),
                    Err(AppError::WrongArtworkUrl) => (
                        Session { work_id, index, stage: Stage::Invalidating },
                        Action::DeleteCache { key: cache_key(work_id, index) },
                    ),
                    Err(error) => fail(work_id, index, error),
                },
                _ => fail(work_id, index, AppError::Internal),
            },
            Stage::Invalidating => match event {
                Event::CacheCleared => ask_metadata(work_id, index),
                _ => fail(work_id, index, AppError::Internal),
            },
            Stage::Metadata => match event {
                Event::Metadata { answer } => match resolve_metadata(work_id, answer) {
                    Ok(metadata) => with_metadata(work_id, index, metadata),
                    Err(error) => fail(work_id, index, error),
                },
                _ => fail(work_id, index, AppError::Internal),
            },
            Stage::Fetching { url } => match event {
                Event::Fetched { reply } => match reply.into_result() {
                    Ok(bytes) => succeed(work_id, index, url, bytes, true),
                    Err(AppError::WrongArtworkUrl) => fail(
                        work_id,
                        index,
                        AppError::unavailable(None),
                    ),
                    Err(error) => fail(work_id, index, error),
                },
                _ => fail(work_id, index, AppError::Internal),
            },
            Stage::Probing { base } => match event {
                Event::Probed { replies } => {
                    let mut replies = replies;
                    proof {
                        lemma_first_delivered(replies@);
                    }
                    match find_delivered(&replies) {
                        Some(at) => {
                            let ProbeReply { extension, reply } = replies.swap_remove(at);
                            let url = candidate_url(base.as_str(), extension);
                            match reply.into_result() {
                                Ok(bytes) => succeed(work_id, index, url, bytes, true),
                                Err(error) => fail(work_id, index, error),
                            }
                        },
                        None => fail(work_id, index, AppError::unavailable(None)),
                    }
                },
                _ => fail(work_id, index, AppError::Internal),
            },
            Stage::Done => fail(work_id, index, AppError::Internal),
        }
    }
}

// ---------------------------------------------------------------------------
// Information about a work
// ---------------------------------------------------------------------------

/// What is told about a work.
#[derive(Debug, PartialEq, Eq)]
pub struct InfoResponse {
    pub artist_name: String,
    /// The artist's id as a number, where the service wrote a number.
    pub artist_id: Option<u32>,
    pub work_id: u32,
    pub title: String,
    pub upload_time: String,
    /// How many images the work has.
    pub length: u16,
    /// The address of the first image in full size, where it is disclosed.
    pub original_url: Option<String>,
}

/// `InfoResponse` as a mathematical value.
pub struct InfoResponseView {
    pub artist_name: Seq<char>,
    pub artist_id: Option<u32>,
    pub work_id: u32,
    pub title: Seq<char>,
    pub upload_time: Seq<char>,
    pub length: u16,
    pub original_url: Option<Seq<char>>,
}

impl View for InfoResponse {
    type V = InfoResponseView;

    open spec fn view(&self) -> InfoResponseView {
        InfoResponseView {
            artist_name: self.artist_name@,
            artist_id: self.artist_id,
            work_id: self.work_id,
            title: self.title@,
            upload_time: self.upload_time@,
            length: self.length,
            original_url: opt_text(self.original_url),
        }
    }
}

/// What is told about work `work_id`, given its metadata: the number of
/// images is one less than the service reports, and the artist's id is read
/// as a number.
pub open spec fn described_work(work_id: u32, metadata: ArtworkMetadataView) -> InfoResponseView {
    InfoResponseView {
        artist_name: metadata.artist_name,
        artist_id: parsed_u32(metadata.artist_id),
        work_id,
        title: metadata.title,
        upload_time: metadata.upload_time,
        length: metadata.max_index(),
        original_url: metadata.original_url,
    }
}

/// What is told about work `work_id`, given the service's reply: the
/// failure that the reply stands for, or the description of the work.
pub open spec fn info_of(work_id: u32, reply: MetadataReplyView) -> Result<
    InfoResponseView,
    AppErrorView,
> {
    match resolved_metadata(work_id, reply) {
        Ok(metadata) => Ok(described_work(work_id, metadata)),
        Err(error) => Err(error),
    }
}

/// What is asked of the service to learn about work `work_id`.
pub open spec fn metadata_question<B>(work_id: u32) -> ActionView<B> {
    ActionView::FetchMetadata { url: metadata_address(work_id), accept_language: "en"@ }
}

/// The question to put to the service about work `work_id`.
pub fn metadata_request<B>(work_id: u32) -> (action: Action<B>)
    ensures
        action@ == metadata_question::<B>(work_id),
{
    Action::FetchMetadata { url: metadata_url(work_id), accept_language: "en".to_owned() }
}

/// Answers a request for information about work `work_id` from the
/// service's reply to `metadata_request(work_id)`.
pub fn info(work_id: u32, reply: MetadataReply) -> (result: Result<InfoResponse, AppError>)
    ensures
        match result {
            Ok(response) => info_of(work_id, reply@) == Ok::<InfoResponseView, AppErrorView>(
                response@,
            ),
            Err(error) => info_of(work_id, reply@) == Err::<InfoResponseView, AppErrorView>(
                error@,
            ),
        },
{
    match resolve_metadata(work_id, reply) {
        Ok(metadata) => {
            let length = metadata.max_index();
            let artist_id = parse_u32(metadata.artist_id.as_str());
            let ArtworkMetadata { original_url, title, upload_time, artist_name, .. } = metadata;
            Ok(
                InfoResponse {
                    artist_name,
                    artist_id,
                    work_id,
                    title,
                    upload_time,
                    length,
                    original_url,
                },
            )
        },
        Err(error) => Err(error),
    }
}

} // verus!
