//! The typed events of the stream.
//!
//! One [`StreamResponse`] is one parsed unit of the stream: the tweet data
//! itself plus the identifiers of the filter rules that matched it. Values
//! are immutable once parsed. Each type has a ghost view; the schema
//! extraction in `parse.rs` and the serializer in `serialize.rs` are
//! specified over these views.

use vstd::prelude::*;

verus! {

/// The view of an optional string.
pub open spec fn view_opt_string(o: Option<String>) -> Option<Seq<char>> {
    match o {
        Option::None => Option::None,
        Option::Some(s) => Option::Some(s@),
    }
}

/// The view of an optional list.
pub open spec fn view_opt_list<T: View>(o: Option<Vec<T>>) -> Option<Seq<T::V>> {
    match o {
        Option::None => Option::None,
        Option::Some(v) => Option::Some(v@.map_values(|x: T| x@)),
    }
}

/// One delivered event: the tweet plus the rules that matched it.
#[derive(Debug, PartialEq)]
pub struct StreamResponse {
    pub data: StreamResponseData,
    pub matching_rules: Option<Vec<RuleMatch>>,
}

pub ghost struct StreamResponseView {
    pub data: StreamResponseDataView,
    pub matching_rules: Option<Seq<RuleMatchView>>,
}

impl View for StreamResponse {
    type V = StreamResponseView;

    open spec fn view(&self) -> StreamResponseView {
        StreamResponseView {
            data: self.data@,
            matching_rules: view_opt_list(self.matching_rules),
        }
    }
}

/// The tweet itself.
#[derive(Debug, PartialEq)]
pub struct StreamResponseData {
    pub id: String,
    pub text: String,
    pub created_at: String,
    pub conversation_id: String,
    pub author_id: Option<String>,
    pub referenced_tweets: Option<Vec<ReferencedTweets>>,
    pub public_metrics: PublicMetrics,
    pub entities: Option<Entities>,
}

pub ghost struct StreamResponseDataView {
    pub id: Seq<char>,
    pub text: Seq<char>,
    pub created_at: Seq<char>,
    pub conversation_id: Seq<char>,
    pub author_id: Option<Seq<char>>,
    pub referenced_tweets: Option<Seq<ReferencedTweetsView>>,
    pub public_metrics: PublicMetrics,
    pub entities: Option<EntitiesView>,
}

impl View for StreamResponseData {
    type V = StreamResponseDataView;

    open spec fn view(&self) -> StreamResponseDataView {
        StreamResponseDataView {
            id: self.id@,
            text: self.text@,
            created_at: self.created_at@,
            conversation_id: self.conversation_id@,
            author_id: view_opt_string(self.author_id),
            referenced_tweets: view_opt_list(self.referenced_tweets),
            public_metrics: self.public_metrics,
            entities: match self.entities {
                Option::None => Option::None,
                Option::Some(e) => Option::Some(e@),
            },
        }
    }
}

/// One filter rule that matched the event.
#[derive(Debug, PartialEq)]
pub struct RuleMatch {
    pub id: usize,
    pub tag: String,
}

pub ghost struct RuleMatchView {
    pub id: usize,
    pub tag: Seq<char>,
}

impl View for RuleMatch {
    type V = RuleMatchView;

    open spec fn view(&self) -> RuleMatchView {
        RuleMatchView { id: self.id, tag: self.tag@ }
    }
}

/// A link to another tweet, with the kind of the relation.
#[derive(Debug, PartialEq)]
pub struct ReferencedTweets {
    pub id: String,
    pub reference_type: String,
}

pub ghost struct ReferencedTweetsView {
    pub id: Seq<char>,
    pub reference_type: Seq<char>,
}

impl View for ReferencedTweets {
    type V = ReferencedTweetsView;

    open spec fn view(&self) -> ReferencedTweetsView {
        ReferencedTweetsView { id: self.id@, reference_type: self.reference_type@ }
    }
}

/// Public engagement counters.
#[derive(Debug, PartialEq, Eq, Structural, Clone, Copy)]
pub struct PublicMetrics {
    pub retweet_count: usize,
    pub reply_count: usize,
    pub like_count: usize,
    pub quote_count: usize,
}

impl View for PublicMetrics {
    type V = PublicMetrics;

    open spec fn view(&self) -> PublicMetrics {
        *self
    }
}

/// Entity annotations attached to the tweet text.
#[derive(Debug, PartialEq)]
pub struct Entities {
    pub annotations: Option<Vec<EntityAnnotation>>,
    pub urls: Option<Vec<EntityUrl>>,
    pub hashtags: Option<Vec<EntityTag>>,
    pub mentions: Option<Vec<EntityMention>>,
    pub cashtags: Option<Vec<EntityTag>>,
}

pub ghost struct EntitiesView {
    pub annotations: Option<Seq<EntityAnnotationView>>,
    pub urls: Option<Seq<EntityUrlView>>,
    pub hashtags: Option<Seq<EntityTagView>>,
    pub mentions: Option<Seq<EntityMentionView>>,
    pub cashtags: Option<Seq<EntityTagView>>,
}

impl View for Entities {
    type V = EntitiesView;

    open spec fn view(&self) -> EntitiesView {
        EntitiesView {
            annotations: view_opt_list(self.annotations),
            urls: view_opt_list(self.urls),
            hashtags: view_opt_list(self.hashtags),
            mentions: view_opt_list(self.mentions),
            cashtags: view_opt_list(self.cashtags),
        }
    }
}

/// A recognized entity in the text. The confidence is kept as the number's
/// original text: the core stores no floating point.
#[derive(Debug, PartialEq)]
pub struct EntityAnnotation {
    pub start: usize,
    pub end: usize,
    pub probability: String,
    pub annotation_type: String,
    pub normalized_text: String,
}

pub ghost struct EntityAnnotationView {
    pub start: usize,
    pub end: usize,
    pub probability: Seq<char>,
    pub annotation_type: Seq<char>,
    pub normalized_text: Seq<char>,
}

impl View for EntityAnnotation {
    type V = EntityAnnotationView;

    open spec fn view(&self) -> EntityAnnotationView {
        EntityAnnotationView {
            start: self.start,
            end: self.end,
            probability: self.probability@,
            annotation_type: self.annotation_type@,
            normalized_text: self.normalized_text@,
        }
    }
}

/// A URL in the tweet text.
#[derive(Debug, PartialEq)]
pub struct EntityUrl {
    pub start: usize,
    pub end: usize,
    pub url: String,
    pub expanded_url: String,
    pub display_url: String,
    pub unwound_url: Option<String>,
    pub images: Option<Vec<UrlImage>>,
    pub status: Option<usize>,
    pub title: Option<String>,
    pub description: Option<String>,
}

pub ghost struct EntityUrlView {
    pub start: usize,
    pub end: usize,
    pub url: Seq<char>,
    pub expanded_url: Seq<char>,
    pub display_url: Seq<char>,
    pub unwound_url: Option<Seq<char>>,
    pub images: Option<Seq<UrlImageView>>,
    pub status: Option<usize>,
    pub title: Option<Seq<char>>,
    pub description: Option<Seq<char>>,
}

impl View for EntityUrl {
    type V = EntityUrlView;

    open spec fn view(&self) -> EntityUrlView {
        EntityUrlView {
            start: self.start,
            end: self.end,
            url: self.url@,
            expanded_url: self.expanded_url@,
            display_url: self.display_url@,
            unwound_url: view_opt_string(self.unwound_url),
            images: view_opt_list(self.images),
            status: self.status,
            title: view_opt_string(self.title),
            description: view_opt_string(self.description),
        }
    }
}

/// A preview image of a linked page.
#[derive(Debug, PartialEq)]
pub struct UrlImage {
    pub url: String,
    pub width: usize,
    pub height: usize,
}

pub ghost struct UrlImageView {
    pub url: Seq<char>,
    pub width: usize,
    pub height: usize,
}

impl View for UrlImage {
    type V = UrlImageView;

    open spec fn view(&self) -> UrlImageView {
        UrlImageView { url: self.url@, width: self.width, height: self.height }
    }
}

/// A hashtag or cashtag.
#[derive(Debug, PartialEq)]
pub struct EntityTag {
    pub start: usize,
    pub end: usize,
    pub tag: String,
}

pub ghost struct EntityTagView {
    pub start: usize,
    pub end: usize,
    pub tag: Seq<char>,
}

impl View for EntityTag {
    type V = EntityTagView;

    open spec fn view(&self) -> EntityTagView {
        EntityTagView { start: self.start, end: self.end, tag: self.tag@ }
    }
}

/// A mention of another account.
#[derive(Debug, PartialEq)]
pub struct EntityMention {
    pub start: usize,
    pub end: usize,
    pub username: String,
}

pub ghost struct EntityMentionView {
    pub start: usize,
    pub end: usize,
    pub username: Seq<char>,
}

impl View for EntityMention {
    type V = EntityMentionView;

    open spec fn view(&self) -> EntityMentionView {
        EntityMentionView { start: self.start, end: self.end, username: self.username@ }
    }
}

} // verus!
