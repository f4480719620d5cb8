//! What the service says about a work, and what the library keeps of it.

use crate::error::{unavailable_message, AppError, AppErrorView};
use crate::text::{decimal, decimal_string};
use vstd::prelude::*;
use vstd::string::*;

verus! {

/// The text of an optional string.
pub open spec fn opt_text(s: Option<String>) -> Option<Seq<char>> {
    match s {
        Some(text) => Some(text@),
        None => None,
    }
}

fn copy_opt(s: &Option<String>) -> (copy: Option<String>)
    ensures
        opt_text(copy) == opt_text(*s),
{
    match s {
        Some(text) => Some(text.clone()),
        None => None,
    }
}

/// One entry of the list of an artist's other works that a document holds:
/// the work's id as the document writes it, and the address of its
/// thumbnail, where the document gives one.
#[derive(Debug, PartialEq, Eq)]
pub struct RelatedWork {
    pub id: String,
    pub url: Option<String>,
}

/// `RelatedWork` as a mathematical value.
pub struct RelatedWorkView {
    pub id: Seq<char>,
    pub url: Option<Seq<char>>,
}

impl View for RelatedWork {
    type V = RelatedWorkView;

    open spec fn view(&self) -> RelatedWorkView {
        RelatedWorkView { id: self.id@, url: opt_text(self.url) }
    }
}

/// The description of a work as the service delivers it.
#[derive(Debug, PartialEq, Eq)]
pub struct WorkDocument {
    pub title: String,
    pub upload_time: String,
    /// The number of images as reported, which is one more than there are.
    pub entry_count: u16,
    /// The address of the first image in full size, where it is disclosed.
    pub original_url: Option<String>,
    pub artist_id: String,
    pub artist_name: String,
    pub related: Vec<RelatedWork>,
}

/// `WorkDocument` as a mathematical value.
pub struct WorkDocumentView {
    pub title: Seq<char>,
    pub upload_time: Seq<char>,
    pub entry_count: u16,
    pub original_url: Option<Seq<char>>,
    pub artist_id: Seq<char>,
    pub artist_name: Seq<char>,
    pub related: Seq<RelatedWorkView>,
}

impl View for WorkDocument {
    type V = WorkDocumentView;

    open spec fn view(&self) -> WorkDocumentView {
        WorkDocumentView {
            title: self.title@,
            upload_time: self.upload_time@,
            entry_count: self.entry_count,
            original_url: opt_text(self.original_url),
            artist_id: self.artist_id@,
            artist_name: self.artist_name@,
            related: self.related@.map_values(|r: RelatedWork| r@),
        }
    }
}

/// What came of asking the service for a work's metadata.
#[derive(Debug, PartialEq, Eq)]
pub enum MetadataReply {
    /// No answer arrived, or what arrived could not be decoded.
    Unreachable,
    /// A decoded answer: the failure flag, the remark that comes with it,
    /// and the description of the work where the answer has the shape of one.
    Document { error: bool, message: Option<String>, body: Option<WorkDocument> },
}

/// `MetadataReply` as a mathematical value.
pub enum MetadataReplyView {
    Unreachable,
    Document { error: bool, message: Option<Seq<char>>, body: Option<WorkDocumentView> },
}

impl View for MetadataReply {
    type V = MetadataReplyView;

    open spec fn view(&self) -> MetadataReplyView {
        match *self {
            MetadataReply::Unreachable => MetadataReplyView::Unreachable,
            MetadataReply::Document { error, message, body } => MetadataReplyView::Document {
                error,
                message: opt_text(message),
                body: match body {
                    Some(document) => Some(document@),
                    None => None,
                },
            },
        }
    }
}

/// What the library keeps of a work's description.
#[derive(Debug, PartialEq, Eq)]
pub struct ArtworkMetadata {
    /// The number of images as reported, which is one more than there are.
    pub entry_count: u16,
    pub original_url: Option<String>,
    /// The address of a thumbnail of the first image; kept only where
    /// `original_url` is missing.
    pub fallback_thumbnail_url: Option<String>,
    pub title: String,
    pub upload_time: String,
    pub artist_id: String,
    pub artist_name: String,
}

/// `ArtworkMetadata` as a mathematical value.
pub struct ArtworkMetadataView {
    pub entry_count: u16,
    pub original_url: Option<Seq<char>>,
    pub fallback_thumbnail_url: Option<Seq<char>>,
    pub title: Seq<char>,
    pub upload_time: Seq<char>,
    pub artist_id: Seq<char>,
    pub artist_name: Seq<char>,
}

impl View for ArtworkMetadata {
    type V = ArtworkMetadataView;

    open spec fn view(&self) -> ArtworkMetadataView {
        ArtworkMetadataView {
            entry_count: self.entry_count,
            original_url: opt_text(self.original_url),
            fallback_thumbnail_url: opt_text(self.fallback_thumbnail_url),
            title: self.title@,
            upload_time: self.upload_time@,
            artist_id: self.artist_id@,
            artist_name: self.artist_name@,
        }
    }
}

/// The highest index that a work of `entry_count` reported entries has an
/// image for: one less than reported, and none below zero.
pub open spec fn max_index_of(entry_count: u16) -> u16 {
    if entry_count == 0 {
        0
    } else {
        (entry_count - 1) as u16
    }
}

impl ArtworkMetadataView {
    /// Metadata is valid where the reported count allows for the one that
    /// the service adds.
    pub open spec fn valid(self) -> bool {
        self.entry_count >= 1
    }

    /// The highest index that the work has an image for.
    pub open spec fn max_index(self) -> u16 {
        max_index_of(self.entry_count)
    }
}

impl ArtworkMetadata {
    /// The highest index that the work has an image for.
    pub fn max_index(&self) -> (max: u16)
        ensures
            max == self@.max_index(),
    {
        if self.entry_count == 0 {
            0
        } else {
            self.entry_count - 1
        }
    }
}

/// The thumbnail that a list of related works gives for the work written as
/// `key`: that of the first entry under that id, and none where no entry has
/// the id or the entry has no address.
pub open spec fn thumbnail_for(related: Seq<RelatedWorkView>, key: Seq<char>) -> Option<Seq<char>>
    decreases related.len(),
{
    if related.len() == 0 {
        None
    } else if related[0].id == key {
        related[0].url
    } else {
        thumbnail_for(related.skip(1), key)
    }
}

/// What is kept of the document of work `work_id`.
pub open spec fn normalized(work_id: u32, document: WorkDocumentView) -> ArtworkMetadataView {
    ArtworkMetadataView {
        entry_count: document.entry_count,
        original_url: document.original_url,
        fallback_thumbnail_url: if document.original_url is Some {
            None
        } else {
            thumbnail_for(document.related, decimal(work_id as nat))
        },
        title: document.title,
        upload_time: document.upload_time,
        artist_id: document.artist_id,
        artist_name: document.artist_name,
    }
}

/// What a reply of the service amounts to: no answer is an unreachable
/// server; an answer that flags a failure, or that has not the shape of a
/// description, is an unavailable work, with the remark that came along;
/// any other answer gives the metadata.
pub open spec fn resolved_metadata(work_id: u32, reply: MetadataReplyView) -> Result<
    ArtworkMetadataView,
    AppErrorView,
> {
    match reply {
        MetadataReplyView::Unreachable => Err(AppErrorView::ServerUnreachable),
        MetadataReplyView::Document { error, message, body } => match body {
            Some(document) if !error => Ok(normalized(work_id, document)),
            _ => Err(AppErrorView::ArtworkUnavailable { message: unavailable_message(message) }),
        },
    }
}

/// The view of what `resolve_metadata` returns.
pub open spec fn metadata_result_view(result: Result<ArtworkMetadata, AppError>) -> Result<
    ArtworkMetadataView,
    AppErrorView,
> {
    match result {
        Ok(metadata) => Ok(metadata@),
        Err(error) => Err(error@),
    }
}

fn find_thumbnail(related: &Vec<RelatedWork>, key: &String) -> (url: Option<String>)
    ensures
        opt_text(url) == thumbnail_for(related@.map_values(|r: RelatedWork| r@), key@),
{
    let ghost views = related@.map_values(|r: RelatedWork| r@);
    let mut i: usize = 0;
    assert(views.skip(0) == views);
    while i < related.len()
        invariant
            i <= related.len(),
            views == related@.map_values(|r: RelatedWork| r@),
            thumbnail_for(views, key@) == thumbnail_for(views.skip(i as int), key@),
        decreases related.len() - i,
    {
        assert(views.skip(i as int)[0] == related@[i as int]@);
        if related[i].id == *key {
            return copy_opt(&related[i].url);
        }
        assert(views.skip(i as int).skip(1) == views.skip(i + 1));
        i += 1;
    }
    None
}

/// Turns a reply of the service to the question after work `work_id` into
/// metadata, or into the failure that the reply stands for.
pub fn resolve_metadata(work_id: u32, reply: MetadataReply) -> (result: Result<
    ArtworkMetadata,
    AppError,
>)
    ensures
        metadata_result_view(result) == resolved_metadata(work_id, reply@),
{
    match reply {
        MetadataReply::Unreachable => Err(AppError::ServerUnreachable),
        MetadataReply::Document { error, message, body } => {
            match body {
                Some(document) if !error => {
                    let WorkDocument {
                        title,
                        upload_time,
                        entry_count,
                        original_url,
                        artist_id,
                        artist_name,
                        related,
                    } = document;
                    let fallback_thumbnail_url = if original_url.is_some() {
                        None
                    } else {
                        let key = decimal_string(work_id);
                        find_thumbnail(&related, &key)
                    };
                    Ok(
                        ArtworkMetadata {
                            entry_count,
                            original_url,
                            fallback_thumbnail_url,
                            title,
                            upload_time,
                            artist_id,
                            artist_name,
                        },
                    )
                },
                _ => {
                    let error = match &message {
                        Some(text) => AppError::unavailable(Some(text.as_str())),
                        None => AppError::unavailable(None),
                    };
                    Err(error)
                },
            }
        },
    }
}

} // verus!
