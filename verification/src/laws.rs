//! What holds of every request, proved from the definition of `next`.

use crate::cache::{cache_key_text, remembered, CacheModel, CACHE_TTL_SECONDS};
use crate::error::AppErrorView;
use crate::fetch::{first_delivered, lemma_first_delivered, FetchReply, ProbeReply};
use crate::metadata::{resolved_metadata, ArtworkMetadataView, MetadataReplyView};
use crate::url::{
    candidate_address, candidate_base_of, indexed_address, referer_address, Extension,
};
use crate::work::{begun, next, ActionView, EventView, SessionView, StageView};
use vstd::prelude::*;

verus! {

/// A request for image zero fails with `ZeroQuery`: at its beginning, and at
/// any step that a session for image zero is put through, whatever the
/// event. Nothing is asked of the store or of the service.
pub proof fn lemma_index_zero_is_refused<B>(work_id: u32, session: SessionView, event: EventView<B>)
    requires
        session.index == 0,
    ensures
        begun::<B>(work_id, 0).0.stage is Done,
        begun::<B>(work_id, 0).1 == (ActionView::<B>::Finish {
            outcome: Err(AppErrorView::ZeroQuery),
            remember: None,
        }),
        next(session, event).0.stage is Done,
        next(session, event).1 == (ActionView::<B>::Finish {
            outcome: Err(AppErrorView::ZeroQuery),
            remember: None,
        }),
{
}

/// Once the metadata of a work is known, a request for an image beyond the
/// last one, and so for the one right behind the last, fails with
/// `TooHighQuery`, which names the index of the last image.
pub proof fn lemma_index_above_maximum_fails<B>(
    session: SessionView,
    answer: MetadataReplyView,
    metadata: ArtworkMetadataView,
)
    requires
        session.stage is Metadata,
        resolved_metadata(session.work_id, answer) == Ok::<ArtworkMetadataView, AppErrorView>(
            metadata,
        ),
        metadata.valid(),
        session.index > metadata.max_index(),
    ensures
        metadata.max_index() == metadata.entry_count - 1,
        next(session, EventView::<B>::Metadata { answer }).0.stage is Done,
        next(session, EventView::<B>::Metadata { answer }).1 == (ActionView::<B>::Finish {
            outcome: Err(AppErrorView::TooHighQuery { max: metadata.max_index() }),
            remember: None,
        }),
{
}

/// A request for an image up to the last one, and so for the last one,
/// succeeds where the address of the first image is known and the file is
/// delivered: the file is asked at the address derived for the index, and
/// its delivery ends the request with that file.
pub proof fn lemma_index_within_maximum_succeeds<B>(
    session: SessionView,
    answer: MetadataReplyView,
    metadata: ArtworkMetadataView,
    first: Seq<char>,
    bytes: B,
)
    requires
        session.stage is Metadata,
        resolved_metadata(session.work_id, answer) == Ok::<ArtworkMetadataView, AppErrorView>(
            metadata,
        ),
        metadata.valid(),
        1 <= session.index <= metadata.max_index(),
        metadata.original_url == Some(first),
    ensures
        ({
            let url = indexed_address(first, session.work_id, session.index);
            let (waiting, action) = next(session, EventView::<B>::Metadata { answer });
            &&& action == (ActionView::<B>::Fetch {
                url,
                referer: referer_address(session.work_id),
            })
            &&& next(
                waiting,
                EventView::Fetched { reply: FetchReply::Answered { status: 200, body: bytes } },
            ) == session.succeed(url, bytes, true)
        }),
{
}

/// A request for an image up to the last one succeeds where only a
/// thumbnail is known and one of the guesses is delivered: the three
/// guesses are asked, and the first delivery among the answers ends the
/// request with its file.
pub proof fn lemma_index_within_maximum_succeeds_by_guess<B>(
    session: SessionView,
    answer: MetadataReplyView,
    metadata: ArtworkMetadataView,
    thumbnail: Seq<char>,
    replies: Seq<ProbeReply<B>>,
)
    requires
        session.stage is Metadata,
        resolved_metadata(session.work_id, answer) == Ok::<ArtworkMetadataView, AppErrorView>(
            metadata,
        ),
        metadata.valid(),
        1 <= session.index <= metadata.max_index(),
        metadata.original_url is None,
        metadata.fallback_thumbnail_url == Some(thumbnail),
        exists|i: int| 0 <= i < replies.len() && (#[trigger] replies[i]).reply.delivered(),
    ensures
        ({
            let base = candidate_base_of(thumbnail, session.work_id, session.index);
            let (waiting, action) = next(session, EventView::<B>::Metadata { answer });
            &&& action == (ActionView::<B>::Probe {
                jpg: candidate_address(base, Extension::Jpg),
                png: candidate_address(base, Extension::Png),
                gif: candidate_address(base, Extension::Gif),
                referer: referer_address(session.work_id),
            })
            &&& next(waiting, EventView::Probed { replies }).1 matches ActionView::Finish {
                outcome: Ok(found),
                remember: Some(write),
            }
            &&& write == remembered(session.work_id, session.index, found.url)
        }),
{
    lemma_first_delivered(replies);
}

/// An address that a request has had remembered is what the next request
/// for the same image reads from the store, from the second of the write
/// until a year has passed: that request asks the store under the key of
/// the write, and goes on to ask for the file at the remembered address.
pub proof fn lemma_remembered_address_is_read_back<B>(
    cache: CacheModel,
    work_id: u32,
    index: u16,
    url: Seq<char>,
    stored_at: nat,
    read_at: nat,
)
    requires
        index >= 1,
        stored_at <= read_at < stored_at + CACHE_TTL_SECONDS,
    ensures
        ({
            let write = remembered(work_id, index, url);
            let (connecting, _) = begun::<B>(work_id, index);
            let (reading, lookup) = next(connecting, EventView::<B>::Connected { ok: true });
            let read = cache.store(write, stored_at).lookup(write.key, read_at);
            &&& lookup == ActionView::<B>::LookupCache { key: write.key }
            &&& read == Some(url)
            &&& next(reading, EventView::<B>::CacheValue { url: read }).1 == (ActionView::<
                B,
            >::Fetch { url, referer: referer_address(work_id) })
        }),
{
}

/// Where nothing is found at a remembered address, the entry is deleted
/// before anything else is done: the store then holds nothing for the
/// image, the service is asked anew about the work, and so is it by a later
/// request that reads the store after the deletion.
pub proof fn lemma_stale_address_is_dropped<B>(
    cache: CacheModel,
    session: SessionView,
    url: Seq<char>,
    body: B,
    read_at: nat,
)
    requires
        session.index >= 1,
        session.stage == (StageView::Verifying { url }),
    ensures
        ({
            let key = cache_key_text(session.work_id, session.index);
            let (dropping, action) = next(
                session,
                EventView::Fetched { reply: FetchReply::Answered { status: 404, body } },
            );
            let read = cache.invalidate(key).lookup(key, read_at);
            &&& action == ActionView::<B>::DeleteCache { key }
            &&& dropping.stage is Invalidating
            &&& read is None
            &&& next(dropping, EventView::<B>::CacheCleared) == session.ask_metadata::<B>()
            &&& next(session.at(StageView::Lookup), EventView::<B>::CacheValue { url: read })
                == session.ask_metadata::<B>()
        }),
{
}

/// Where exactly one of the answers to the guesses carries the file, that
/// file is handed back, under the address of the format that the answer
/// belongs to, and that address is remembered, at whichever place among the
/// answers it stands.
pub proof fn lemma_single_delivery_wins<B>(
    session: SessionView,
    base: Seq<char>,
    replies: Seq<ProbeReply<B>>,
    at: int,
)
    requires
        session.index >= 1,
        session.stage == (StageView::Probing { base }),
        0 <= at < replies.len(),
        forall|i: int| 0 <= i < replies.len() ==> ((#[trigger] replies[i]).reply.delivered() <==> i == at),
    ensures
        ({
            let url = candidate_address(base, replies[at].extension);
            &&& next(session, EventView::Probed { replies }) == session.succeed(
                url,
                replies[at].reply->body,
                true,
            )
            &&& session.succeed(url, replies[at].reply->body, true).1 matches ActionView::Finish {
                outcome: Ok(found),
                remember: Some(write),
            }
            &&& found.url == url
            &&& found.bytes == replies[at].reply->body
            &&& write == remembered(session.work_id, session.index, url)
        }),
{
    lemma_first_delivered(replies);
}

/// Every request for a file names the page of the work as the referring
/// page.
pub proof fn lemma_referer_is_always_sent<B>(session: SessionView, event: EventView<B>)
    ensures
        next(session, event).1 matches ActionView::Fetch { referer, .. } ==> referer
            == referer_address(session.work_id),
        next(session, event).1 matches ActionView::Probe { referer, .. } ==> referer
            == referer_address(session.work_id),
{
}

/// Once the metadata is known, a file is asked for only where the index
/// lies between one and the index of the last image.
pub proof fn lemma_files_are_asked_within_bounds<B>(session: SessionView, answer: MetadataReplyView)
    requires
        session.stage is Metadata,
    ensures
        ({
            let action = next(session, EventView::<B>::Metadata { answer }).1;
            action is Fetch || action is Probe ==> {
                &&& resolved_metadata(session.work_id, answer) matches Ok(metadata)
                &&& 1 <= session.index <= metadata.max_index()
            }
        }),
{
}

/// An address is remembered only together with a delivered file: a write
/// comes with a successful outcome alone, names the address of that
/// outcome under the key of the image, and follows an answer that carried
/// the file.
pub proof fn lemma_only_delivered_addresses_are_remembered<B>(
    session: SessionView,
    event: EventView<B>,
)
    ensures
        next(session, event).1 matches ActionView::Finish { outcome, remember: Some(write) } ==> {
            &&& outcome matches Ok(found)
            &&& write == remembered(session.work_id, session.index, found.url)
            &&& match event {
                EventView::Fetched { reply } => reply.delivered(),
                EventView::Probed { replies } => first_delivered(replies) is Some,
                _ => false,
            }
        },
{
    if let EventView::Probed { replies } = event {
        lemma_first_delivered(replies);
    }
}

/// A request is over exactly when its answer is given.
pub proof fn lemma_done_with_the_answer<B>(session: SessionView, event: EventView<B>)
    ensures
        next(session, event).0.stage is Done <==> next(session, event).1 is Finish,
        next(session, event).0.work_id == session.work_id,
        next(session, event).0.index == session.index,
{
}

} // verus!
