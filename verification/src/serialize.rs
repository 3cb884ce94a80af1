//! The canonical JSON document of an event.
//!
//! Each event type has one canonical document: every field of the type
//! appears under its key, an absent optional field as `null`. The
//! executable builders return exactly these documents, and the round-trip
//! law at the end of the module proves that parsing a canonical document
//! yields the value it was built from.

use vstd::prelude::*;

use crate::event::EntitiesView;
use crate::event::EntityAnnotation;
use crate::event::EntityAnnotationView;
use crate::event::EntityMention;
use crate::event::EntityMentionView;
use crate::event::EntityTag;
use crate::event::EntityTagView;
use crate::event::EntityUrl;
use crate::event::EntityUrlView;
use crate::event::Entities;
use crate::event::PublicMetrics;
use crate::event::ReferencedTweets;
use crate::event::ReferencedTweetsView;
use crate::event::RuleMatch;
use crate::event::RuleMatchView;
use crate::event::StreamResponse;
use crate::event::StreamResponseData;
use crate::event::StreamResponseDataView;
use crate::event::StreamResponseView;
use crate::event::UrlImage;
use crate::event::UrlImageView;
use crate::json::Json;
use crate::json::JsonVal;
use crate::json::arr_view;
use crate::json::lemma_arr_view_index;
use crate::json::lemma_arr_view_len;
use crate::json::lemma_obj_view_index;
use crate::json::lemma_obj_view_len;
use crate::json::obj_get;
use crate::json::obj_view;
use crate::json::json_view;
use crate::parse::spec_parse_annotation;
use crate::parse::spec_parse_annotations;
use crate::parse::spec_parse_data;
use crate::parse::spec_parse_entities;
use crate::parse::spec_parse_image;
use crate::parse::spec_parse_images;
use crate::parse::spec_parse_mention;
use crate::parse::spec_parse_mentions;
use crate::parse::spec_parse_metrics;
use crate::parse::spec_parse_ref;
use crate::parse::spec_parse_refs;
use crate::parse::spec_parse_response;
use crate::parse::spec_parse_rule_match;
use crate::parse::spec_parse_rule_matches;
use crate::parse::spec_parse_tag;
use crate::parse::spec_parse_tags;
use crate::parse::spec_parse_url;
use crate::parse::spec_parse_urls;

verus! {

broadcast use
    vstd::seq::group_seq_axioms,
    vstd::std_specs::vec::group_vec_axioms,
    lemma_arr_view_len,
    lemma_arr_view_index,
    lemma_obj_view_len,
    lemma_obj_view_index;

/// An optional string, as a JSON value: `null` when absent.
pub open spec fn opt_str_val(o: Option<Seq<char>>) -> JsonVal {
    match o {
        Option::None => JsonVal::Null,
        Option::Some(s) => JsonVal::Str(s),
    }
}

/// An optional number, as a JSON value: `null` when absent.
pub open spec fn opt_usize_val(o: Option<usize>) -> JsonVal {
    match o {
        Option::None => JsonVal::Null,
        Option::Some(u) => JsonVal::UInt(u as u64),
    }
}

/// The canonical document of one rule match.
pub open spec fn rule_match_jsonval(v: RuleMatchView) -> JsonVal {
    JsonVal::Obj(
        seq![
            ("id"@, JsonVal::UInt(v.id as u64)),
            ("tag"@, JsonVal::Str(v.tag)),
        ],
    )
}

fn rule_match_to_json(x: &RuleMatch) -> (r: Json)
    ensures
        r@ == rule_match_jsonval(x@),
{
    let mut fields: Vec<(String, Json)> = Vec::new();
    fields.push(("id".to_owned(), Json::UInt(x.id as u64)));
    fields.push(("tag".to_owned(), Json::Str(x.tag.clone())));
    let r = Json::Obj(fields);
    proof {
        assert(obj_view(r->Obj_0@) =~= rule_match_jsonval(x@)->Obj_0);
    }
    r
}

/// Parsing the canonical document of a rule match yields it again.
pub proof fn lemma_rule_match_round_trip(v: RuleMatchView)
    ensures
        spec_parse_rule_match(rule_match_jsonval(v)) == Option::Some(v),
{
    reveal_with_fuel(obj_get, 4);
    reveal_strlit("id");
    reveal_strlit("tag");
    assert("id"@ =~= seq!['i', 'd']);
    assert("tag"@ =~= seq!['t', 'a', 'g']);
    let fields = rule_match_jsonval(v)->Obj_0;
    assert(fields.drop_first() =~= seq![("tag"@, JsonVal::Str(v.tag))]);
    assert(obj_get(fields, "id"@) == Option::Some(JsonVal::UInt(v.id as u64)));
    assert(obj_get(fields, "tag"@) == Option::Some(JsonVal::Str(v.tag)));
}


/// An optional list, as a JSON value: `null` when absent.
pub open spec fn opt_refs_val(o: Option<Seq<ReferencedTweetsView>>) -> JsonVal {
    match o {
        Option::None => JsonVal::Null,
        Option::Some(s) => JsonVal::Arr(s.map_values(|e: ReferencedTweetsView| ref_jsonval(e))),
    }
}

/// An optional list, as a JSON value: `null` when absent.
pub open spec fn opt_rule_matches_val(o: Option<Seq<RuleMatchView>>) -> JsonVal {
    match o {
        Option::None => JsonVal::Null,
        Option::Some(s) => JsonVal::Arr(s.map_values(|e: RuleMatchView| rule_match_jsonval(e))),
    }
}

/// An optional list, as a JSON value: `null` when absent.
pub open spec fn opt_images_val(o: Option<Seq<UrlImageView>>) -> JsonVal {
    match o {
        Option::None => JsonVal::Null,
        Option::Some(s) => JsonVal::Arr(s.map_values(|e: UrlImageView| image_jsonval(e))),
    }
}

/// An optional list, as a JSON value: `null` when absent.
pub open spec fn opt_tags_val(o: Option<Seq<EntityTagView>>) -> JsonVal {
    match o {
        Option::None => JsonVal::Null,
        Option::Some(s) => JsonVal::Arr(s.map_values(|e: EntityTagView| tag_jsonval(e))),
    }
}

/// An optional list, as a JSON value: `null` when absent.
pub open spec fn opt_mentions_val(o: Option<Seq<EntityMentionView>>) -> JsonVal {
    match o {
        Option::None => JsonVal::Null,
        Option::Some(s) => JsonVal::Arr(s.map_values(|e: EntityMentionView| mention_jsonval(e))),
    }
}

/// An optional list, as a JSON value: `null` when absent.
pub open spec fn opt_annotations_val(o: Option<Seq<EntityAnnotationView>>) -> JsonVal {
    match o {
        Option::None => JsonVal::Null,
        Option::Some(s) => JsonVal::Arr(s.map_values(|e: EntityAnnotationView| annotation_jsonval(e))),
    }
}

/// An optional list, as a JSON value: `null` when absent.
pub open spec fn opt_urls_val(o: Option<Seq<EntityUrlView>>) -> JsonVal {
    match o {
        Option::None => JsonVal::Null,
        Option::Some(s) => JsonVal::Arr(s.map_values(|e: EntityUrlView| url_jsonval(e))),
    }
}

/// An optional entity object, as a JSON value: `null` when absent.
pub open spec fn opt_entities_val(o: Option<EntitiesView>) -> JsonVal {
    match o {
        Option::None => JsonVal::Null,
        Option::Some(e) => entities_jsonval(e),
    }
}

/// The canonical document of one referenced-tweet link.
pub open spec fn ref_jsonval(v: ReferencedTweetsView) -> JsonVal {
    JsonVal::Obj(
        seq![
            ("id"@, JsonVal::Str(v.id)),
            ("type"@, JsonVal::Str(v.reference_type)),
        ],
    )
}

/// The canonical document of one preview image.
pub open spec fn image_jsonval(v: UrlImageView) -> JsonVal {
    JsonVal::Obj(
        seq![
            ("url"@, JsonVal::Str(v.url)),
            ("width"@, JsonVal::UInt(v.width as u64)),
            ("height"@, JsonVal::UInt(v.height as u64)),
        ],
    )
}

/// The canonical document of one hashtag or cashtag.
pub open spec fn tag_jsonval(v: EntityTagView) -> JsonVal {
    JsonVal::Obj(
        seq![
            ("start"@, JsonVal::UInt(v.start as u64)),
            ("end"@, JsonVal::UInt(v.end as u64)),
            ("tag"@, JsonVal::Str(v.tag)),
        ],
    )
}

/// The canonical document of one mention.
pub open spec fn mention_jsonval(v: EntityMentionView) -> JsonVal {
    JsonVal::Obj(
        seq![
            ("start"@, JsonVal::UInt(v.start as u64)),
            ("end"@, JsonVal::UInt(v.end as u64)),
            ("username"@, JsonVal::Str(v.username)),
        ],
    )
}

/// The canonical document of one annotation.
pub open spec fn annotation_jsonval(v: EntityAnnotationView) -> JsonVal {
    JsonVal::Obj(
        seq![
            ("start"@, JsonVal::UInt(v.start as u64)),
            ("end"@, JsonVal::UInt(v.end as u64)),
            ("probability"@, JsonVal::Number(v.probability)),
            ("type"@, JsonVal::Str(v.annotation_type)),
            ("normalized_text"@, JsonVal::Str(v.normalized_text)),
        ],
    )
}

/// The canonical document of one URL entity.
pub open spec fn url_jsonval(v: EntityUrlView) -> JsonVal {
    JsonVal::Obj(
        seq![
            ("start"@, JsonVal::UInt(v.start as u64)),
            ("end"@, JsonVal::UInt(v.end as u64)),
            ("url"@, JsonVal::Str(v.url)),
            ("expanded_url"@, JsonVal::Str(v.expanded_url)),
            ("display_url"@, JsonVal::Str(v.display_url)),
            ("unwound_url"@, opt_str_val(v.unwound_url)),
            ("images"@, opt_images_val(v.images)),
            ("status"@, opt_usize_val(v.status)),
            ("title"@, opt_str_val(v.title)),
            ("description"@, opt_str_val(v.description)),
        ],
    )
}

/// The canonical document of the engagement counters.
pub open spec fn metrics_jsonval(v: PublicMetrics) -> JsonVal {
    JsonVal::Obj(
        seq![
            ("retweet_count"@, JsonVal::UInt(v.retweet_count as u64)),
            ("reply_count"@, JsonVal::UInt(v.reply_count as u64)),
            ("like_count"@, JsonVal::UInt(v.like_count as u64)),
            ("quote_count"@, JsonVal::UInt(v.quote_count as u64)),
        ],
    )
}

/// The canonical document of the entity annotations.
pub open spec fn entities_jsonval(v: EntitiesView) -> JsonVal {
    JsonVal::Obj(
        seq![
            ("annotations"@, opt_annotations_val(v.annotations)),
            ("urls"@, opt_urls_val(v.urls)),
            ("hashtags"@, opt_tags_val(v.hashtags)),
            ("mentions"@, opt_mentions_val(v.mentions)),
            ("cashtags"@, opt_tags_val(v.cashtags)),
        ],
    )
}

/// The canonical document of the tweet body.
pub open spec fn data_jsonval(v: StreamResponseDataView) -> JsonVal {
    JsonVal::Obj(
        seq![
            ("id"@, JsonVal::Str(v.id)),
            ("text"@, JsonVal::Str(v.text)),
            ("created_at"@, JsonVal::Str(v.created_at)),
            ("conversation_id"@, JsonVal::Str(v.conversation_id)),
            ("author_id"@, opt_str_val(v.author_id)),
            ("referenced_tweets"@, opt_refs_val(v.referenced_tweets)),
            ("public_metrics"@, metrics_jsonval(v.public_metrics)),
            ("entities"@, opt_entities_val(v.entities)),
        ],
    )
}

/// The canonical document of one whole event.
pub open spec fn response_jsonval(v: StreamResponseView) -> JsonVal {
    JsonVal::Obj(
        seq![
            ("data"@, data_jsonval(v.data)),
            ("matching_rules"@, opt_rule_matches_val(v.matching_rules)),
        ],
    )
}

fn refs_to_json_vec(v: &Vec<ReferencedTweets>) -> (r: Vec<Json>)
    ensures
        arr_view(r@) == v@.map_values(|x: ReferencedTweets| x@).map_values(|e: ReferencedTweetsView| ref_jsonval(e)),
{
    let mut out: Vec<Json> = Vec::new();
    let mut i: usize = 0;
    while i < v.len()
        invariant
            i <= v@.len(),
            out@.len() == i,
            forall|k: int| 0 <= k < i ==> json_view(#[trigger] out@[k]) == ref_jsonval(v@[k]@),
        decreases v@.len() - i,
    {
        let j = ref_to_json(&v[i]);
        out.push(j);
        i += 1;
    }
    proof {
        assert(arr_view(out@) =~= v@.map_values(|x: ReferencedTweets| x@).map_values(
            |e: ReferencedTweetsView| ref_jsonval(e),
        ));
    }
    out
}

fn rule_matches_to_json_vec(v: &Vec<RuleMatch>) -> (r: Vec<Json>)
    ensures
        arr_view(r@) == v@.map_values(|x: RuleMatch| x@).map_values(|e: RuleMatchView| rule_match_jsonval(e)),
{
    let mut out: Vec<Json> = Vec::new();
    let mut i: usize = 0;
    while i < v.len()
        invariant
            i <= v@.len(),
            out@.len() == i,
            forall|k: int| 0 <= k < i ==> json_view(#[trigger] out@[k]) == rule_match_jsonval(v@[k]@),
        decreases v@.len() - i,
    {
        let j = rule_match_to_json(&v[i]);
        out.push(j);
        i += 1;
    }
    proof {
        assert(arr_view(out@) =~= v@.map_values(|x: RuleMatch| x@).map_values(
            |e: RuleMatchView| rule_match_jsonval(e),
        ));
    }
    out
}

fn images_to_json_vec(v: &Vec<UrlImage>) -> (r: Vec<Json>)
    ensures
        arr_view(r@) == v@.map_values(|x: UrlImage| x@).map_values(|e: UrlImageView| image_jsonval(e)),
{
    let mut out: Vec<Json> = Vec::new();
    let mut i: usize = 0;
    while i < v.len()
        invariant
            i <= v@.len(),
            out@.len() == i,
            forall|k: int| 0 <= k < i ==> json_view(#[trigger] out@[k]) == image_jsonval(v@[k]@),
        decreases v@.len() - i,
    {
        let j = image_to_json(&v[i]);
        out.push(j);
        i += 1;
    }
    proof {
        assert(arr_view(out@) =~= v@.map_values(|x: UrlImage| x@).map_values(
            |e: UrlImageView| image_jsonval(e),
        ));
    }
    out
}

fn tags_to_json_vec(v: &Vec<EntityTag>) -> (r: Vec<Json>)
    ensures
        arr_view(r@) == v@.map_values(|x: EntityTag| x@).map_values(|e: EntityTagView| tag_jsonval(e)),
{
    let mut out: Vec<Json> = Vec::new();
    let mut i: usize = 0;
    while i < v.len()
        invariant
            i <= v@.len(),
            out@.len() == i,
            forall|k: int| 0 <= k < i ==> json_view(#[trigger] out@[k]) == tag_jsonval(v@[k]@),
        decreases v@.len() - i,
    {
        let j = tag_to_json(&v[i]);
        out.push(j);
        i += 1;
    }
    proof {
        assert(arr_view(out@) =~= v@.map_values(|x: EntityTag| x@).map_values(
            |e: EntityTagView| tag_jsonval(e),
        ));
    }
    out
}

fn mentions_to_json_vec(v: &Vec<EntityMention>) -> (r: Vec<Json>)
    ensures
        arr_view(r@) == v@.map_values(|x: EntityMention| x@).map_values(|e: EntityMentionView| mention_jsonval(e)),
{
    let mut out: Vec<Json> = Vec::new();
    let mut i: usize = 0;
    while i < v.len()
        invariant
            i <= v@.len(),
            out@.len() == i,
            forall|k: int| 0 <= k < i ==> json_view(#[trigger] out@[k]) == mention_jsonval(v@[k]@),
        decreases v@.len() - i,
    {
        let j = mention_to_json(&v[i]);
        out.push(j);
        i += 1;
    }
    proof {
        assert(arr_view(out@) =~= v@.map_values(|x: EntityMention| x@).map_values(
            |e: EntityMentionView| mention_jsonval(e),
        ));
    }
    out
}

fn annotations_to_json_vec(v: &Vec<EntityAnnotation>) -> (r: Vec<Json>)
    ensures
        arr_view(r@) == v@.map_values(|x: EntityAnnotation| x@).map_values(|e: EntityAnnotationView| annotation_jsonval(e)),
{
    let mut out: Vec<Json> = Vec::new();
    let mut i: usize = 0;
    while i < v.len()
        invariant
            i <= v@.len(),
            out@.len() == i,
            forall|k: int| 0 <= k < i ==> json_view(#[trigger] out@[k]) == annotation_jsonval(v@[k]@),
        decreases v@.len() - i,
    {
        let j = annotation_to_json(&v[i]);
        out.push(j);
        i += 1;
    }
    proof {
        assert(arr_view(out@) =~= v@.map_values(|x: EntityAnnotation| x@).map_values(
            |e: EntityAnnotationView| annotation_jsonval(e),
        ));
    }
    out
}

fn urls_to_json_vec(v: &Vec<EntityUrl>) -> (r: Vec<Json>)
    ensures
        arr_view(r@) == v@.map_values(|x: EntityUrl| x@).map_values(|e: EntityUrlView| url_jsonval(e)),
{
    let mut out: Vec<Json> = Vec::new();
    let mut i: usize = 0;
    while i < v.len()
        invariant
            i <= v@.len(),
            out@.len() == i,
            forall|k: int| 0 <= k < i ==> json_view(#[trigger] out@[k]) == url_jsonval(v@[k]@),
        decreases v@.len() - i,
    {
        let j = url_to_json(&v[i]);
        out.push(j);
        i += 1;
    }
    proof {
        assert(arr_view(out@) =~= v@.map_values(|x: EntityUrl| x@).map_values(
            |e: EntityUrlView| url_jsonval(e),
        ));
    }
    out
}

/// Builds the canonical document of this referenced-tweet link.
fn ref_to_json(x: &ReferencedTweets) -> (r: Json)
    ensures
        r@ == ref_jsonval(x@),
{
    let mut fields: Vec<(String, Json)> = Vec::new();
    fields.push(("id".to_owned(), Json::Str(x.id.clone())));
    fields.push(("type".to_owned(), Json::Str(x.reference_type.clone())));
    let r = Json::Obj(fields);
    proof {
        assert(obj_view(r->Obj_0@) =~= ref_jsonval(x@)->Obj_0);
    }
    r
}

/// Builds the canonical document of this preview image.
fn image_to_json(x: &UrlImage) -> (r: Json)
    ensures
        r@ == image_jsonval(x@),
{
    let mut fields: Vec<(String, Json)> = Vec::new();
    fields.push(("url".to_owned(), Json::Str(x.url.clone())));
    fields.push(("width".to_owned(), Json::UInt(x.width as u64)));
    fields.push(("height".to_owned(), Json::UInt(x.height as u64)));
    let r = Json::Obj(fields);
    proof {
        assert(obj_view(r->Obj_0@) =~= image_jsonval(x@)->Obj_0);
    }
    r
}

/// Builds the canonical document of this hashtag or cashtag.
fn tag_to_json(x: &EntityTag) -> (r: Json)
    ensures
        r@ == tag_jsonval(x@),
{
    let mut fields: Vec<(String, Json)> = Vec::new();
    fields.push(("start".to_owned(), Json::UInt(x.start as u64)));
    fields.push(("end".to_owned(), Json::UInt(x.end as u64)));
    fields.push(("tag".to_owned(), Json::Str(x.tag.clone())));
    let r = Json::Obj(fields);
    proof {
        assert(obj_view(r->Obj_0@) =~= tag_jsonval(x@)->Obj_0);
    }
    r
}

/// Builds the canonical document of this mention.
fn mention_to_json(x: &EntityMention) -> (r: Json)
    ensures
        r@ == mention_jsonval(x@),
{
    let mut fields: Vec<(String, Json)> = Vec::new();
    fields.push(("start".to_owned(), Json::UInt(x.start as u64)));
    fields.push(("end".to_owned(), Json::UInt(x.end as u64)));
    fields.push(("username".to_owned(), Json::Str(x.username.clone())));
    let r = Json::Obj(fields);
    proof {
        assert(obj_view(r->Obj_0@) =~= mention_jsonval(x@)->Obj_0);
    }
    r
}

/// Builds the canonical document of this annotation.
fn annotation_to_json(x: &EntityAnnotation) -> (r: Json)
    ensures
        r@ == annotation_jsonval(x@),
{
    let mut fields: Vec<(String, Json)> = Vec::new();
    fields.push(("start".to_owned(), Json::UInt(x.start as u64)));
    fields.push(("end".to_owned(), Json::UInt(x.end as u64)));
    fields.push(("probability".to_owned(), Json::Number(x.probability.clone())));
    fields.push(("type".to_owned(), Json::Str(x.annotation_type.clone())));
    fields.push(("normalized_text".to_owned(), Json::Str(x.normalized_text.clone())));
    let r = Json::Obj(fields);
    proof {
        assert(obj_view(r->Obj_0@) =~= annotation_jsonval(x@)->Obj_0);
    }
    r
}

/// Builds the canonical document of this URL entity.
fn url_to_json(x: &EntityUrl) -> (r: Json)
    ensures
        r@ == url_jsonval(x@),
{
    let mut fields: Vec<(String, Json)> = Vec::new();
    fields.push(("start".to_owned(), Json::UInt(x.start as u64)));
    fields.push(("end".to_owned(), Json::UInt(x.end as u64)));
    fields.push(("url".to_owned(), Json::Str(x.url.clone())));
    fields.push(("expanded_url".to_owned(), Json::Str(x.expanded_url.clone())));
    fields.push(("display_url".to_owned(), Json::Str(x.display_url.clone())));
    fields.push(("unwound_url".to_owned(), match &x.unwound_url {
        Option::Some(s) => Json::Str(s.clone()),
        Option::None => Json::Null,
    }));
    fields.push(("images".to_owned(), match &x.images {
        Option::Some(v2) => Json::Arr(images_to_json_vec(v2)),
        Option::None => Json::Null,
    }));
    fields.push(("status".to_owned(), match x.status {
        Option::Some(u) => Json::UInt(u as u64),
        Option::None => Json::Null,
    }));
    fields.push(("title".to_owned(), match &x.title {
        Option::Some(s) => Json::Str(s.clone()),
        Option::None => Json::Null,
    }));
    fields.push(("description".to_owned(), match &x.description {
        Option::Some(s) => Json::Str(s.clone()),
        Option::None => Json::Null,
    }));
    let r = Json::Obj(fields);
    proof {
        assert(obj_view(r->Obj_0@) =~= url_jsonval(x@)->Obj_0);
    }
    r
}

/// Builds the canonical document of this engagement counters.
fn metrics_to_json(x: &PublicMetrics) -> (r: Json)
    ensures
        r@ == metrics_jsonval(x@),
{
    let mut fields: Vec<(String, Json)> = Vec::new();
    fields.push(("retweet_count".to_owned(), Json::UInt(x.retweet_count as u64)));
    fields.push(("reply_count".to_owned(), Json::UInt(x.reply_count as u64)));
    fields.push(("like_count".to_owned(), Json::UInt(x.like_count as u64)));
    fields.push(("quote_count".to_owned(), Json::UInt(x.quote_count as u64)));
    let r = Json::Obj(fields);
    proof {
        assert(obj_view(r->Obj_0@) =~= metrics_jsonval(x@)->Obj_0);
    }
    r
}

/// Builds the canonical document of this entity annotations.
fn entities_to_json(x: &Entities) -> (r: Json)
    ensures
        r@ == entities_jsonval(x@),
{
    let mut fields: Vec<(String, Json)> = Vec::new();
    fields.push(("annotations".to_owned(), match &x.annotations {
        Option::Some(v2) => Json::Arr(annotations_to_json_vec(v2)),
        Option::None => Json::Null,
    }));
    fields.push(("urls".to_owned(), match &x.urls {
        Option::Some(v2) => Json::Arr(urls_to_json_vec(v2)),
        Option::None => Json::Null,
    }));
    fields.push(("hashtags".to_owned(), match &x.hashtags {
        Option::Some(v2) => Json::Arr(tags_to_json_vec(v2)),
        Option::None => Json::Null,
    }));
    fields.push(("mentions".to_owned(), match &x.mentions {
        Option::Some(v2) => Json::Arr(mentions_to_json_vec(v2)),
        Option::None => Json::Null,
    }));
    fields.push(("cashtags".to_owned(), match &x.cashtags {
        Option::Some(v2) => Json::Arr(tags_to_json_vec(v2)),
        Option::None => Json::Null,
    }));
    let r = Json::Obj(fields);
    proof {
        assert(obj_view(r->Obj_0@) =~= entities_jsonval(x@)->Obj_0);
    }
    r
}

/// Builds the canonical document of this tweet body.
fn data_to_json(x: &StreamResponseData) -> (r: Json)
    ensures
        r@ == data_jsonval(x@),
{
    let mut fields: Vec<(String, Json)> = Vec::new();
    fields.push(("id".to_owned(), Json::Str(x.id.clone())));
    fields.push(("text".to_owned(), Json::Str(x.text.clone())));
    fields.push(("created_at".to_owned(), Json::Str(x.created_at.clone())));
    fields.push(("conversation_id".to_owned(), Json::Str(x.conversation_id.clone())));
    fields.push(("author_id".to_owned(), match &x.author_id {
        Option::Some(s) => Json::Str(s.clone()),
        Option::None => Json::Null,
    }));
    fields.push(("referenced_tweets".to_owned(), match &x.referenced_tweets {
        Option::Some(v2) => Json::Arr(refs_to_json_vec(v2)),
        Option::None => Json::Null,
    }));
    fields.push(("public_metrics".to_owned(), metrics_to_json(&x.public_metrics)));
    fields.push(("entities".to_owned(), match &x.entities {
        Option::Some(e) => entities_to_json(e),
        Option::None => Json::Null,
    }));
    let r = Json::Obj(fields);
    proof {
        assert(obj_view(r->Obj_0@) =~= data_jsonval(x@)->Obj_0);
    }
    r
}

/// Builds the canonical document of this event.
pub fn response_to_json(x: &StreamResponse) -> (r: Json)
    ensures
        r@ == response_jsonval(x@),
{
    let mut fields: Vec<(String, Json)> = Vec::new();
    fields.push(("data".to_owned(), data_to_json(&x.data)));
    fields.push(("matching_rules".to_owned(), match &x.matching_rules {
        Option::Some(v2) => Json::Arr(rule_matches_to_json_vec(v2)),
        Option::None => Json::Null,
    }));
    let r = Json::Obj(fields);
    proof {
        assert(obj_view(r->Obj_0@) =~= response_jsonval(x@)->Obj_0);
    }
    r
}

/// Parsing the canonical document of this value yields it again.
pub proof fn lemma_ref_round_trip(v: ReferencedTweetsView)
    ensures
        spec_parse_ref(ref_jsonval(v)) == Option::Some(v),
{
    reveal_with_fuel(obj_get, 4);
    reveal_strlit("id");
    reveal_strlit("type");
    assert("id"@ =~= seq!['i', 'd']);
    assert("type"@ =~= seq!['t', 'y', 'p', 'e']);
    let fields = ref_jsonval(v)->Obj_0;
    let f1 = fields.drop_first();
    assert(f1 =~= seq![("type"@, JsonVal::Str(v.reference_type))]);
    assert(obj_get(fields, "id"@) == Option::Some(JsonVal::Str(v.id)));
    assert(obj_get(fields, "type"@) == Option::Some(JsonVal::Str(v.reference_type)));
}

/// Parsing the canonical document of this value yields it again.
pub proof fn lemma_image_round_trip(v: UrlImageView)
    ensures
        spec_parse_image(image_jsonval(v)) == Option::Some(v),
{
    reveal_with_fuel(obj_get, 5);
    reveal_strlit("url");
    reveal_strlit("width");
    reveal_strlit("height");
    assert("url"@ =~= seq!['u', 'r', 'l']);
    assert("width"@ =~= seq!['w', 'i', 'd', 't', 'h']);
    assert("height"@ =~= seq!['h', 'e', 'i', 'g', 'h', 't']);
    let fields = image_jsonval(v)->Obj_0;
    let f1 = fields.drop_first();
    assert(f1 =~= seq![("width"@, JsonVal::UInt(v.width as u64)), ("height"@, JsonVal::UInt(v.height as u64))]);
    let f2 = f1.drop_first();
    assert(f2 =~= seq![("height"@, JsonVal::UInt(v.height as u64))]);
    assert(obj_get(fields, "url"@) == Option::Some(JsonVal::Str(v.url)));
    assert(obj_get(fields, "width"@) == Option::Some(JsonVal::UInt(v.width as u64)));
    assert(obj_get(fields, "height"@) == Option::Some(JsonVal::UInt(v.height as u64)));
}

/// Parsing the canonical document of this value yields it again.
pub proof fn lemma_tag_round_trip(v: EntityTagView)
    ensures
        spec_parse_tag(tag_jsonval(v)) == Option::Some(v),
{
    reveal_with_fuel(obj_get, 5);
    reveal_strlit("start");
    reveal_strlit("end");
    reveal_strlit("tag");
    assert("start"@ =~= seq!['s', 't', 'a', 'r', 't']);
    assert("end"@ =~= seq!['e', 'n', 'd']);
    assert("tag"@ =~= seq!['t', 'a', 'g']);
    let fields = tag_jsonval(v)->Obj_0;
    let f1 = fields.drop_first();
    assert(f1 =~= seq![("end"@, JsonVal::UInt(v.end as u64)), ("tag"@, JsonVal::Str(v.tag))]);
    let f2 = f1.drop_first();
    assert(f2 =~= seq![("tag"@, JsonVal::Str(v.tag))]);
    assert(obj_get(fields, "start"@) == Option::Some(JsonVal::UInt(v.start as u64)));
    assert(obj_get(fields, "end"@) == Option::Some(JsonVal::UInt(v.end as u64)));
    assert(obj_get(fields, "tag"@) == Option::Some(JsonVal::Str(v.tag)));
}

/// Parsing the canonical document of this value yields it again.
pub proof fn lemma_mention_round_trip(v: EntityMentionView)
    ensures
        spec_parse_mention(mention_jsonval(v)) == Option::Some(v),
{
    reveal_with_fuel(obj_get, 5);
    reveal_strlit("start");
    reveal_strlit("end");
    reveal_strlit("username");
    assert("start"@ =~= seq!['s', 't', 'a', 'r', 't']);
    assert("end"@ =~= seq!['e', 'n', 'd']);
    assert("username"@ =~= seq!['u', 's', 'e', 'r', 'n', 'a', 'm', 'e']);
    let fields = mention_jsonval(v)->Obj_0;
    let f1 = fields.drop_first();
    assert(f1 =~= seq![("end"@, JsonVal::UInt(v.end as u64)), ("username"@, JsonVal::Str(v.username))]);
    let f2 = f1.drop_first();
    assert(f2 =~= seq![("username"@, JsonVal::Str(v.username))]);
    assert(obj_get(fields, "start"@) == Option::Some(JsonVal::UInt(v.start as u64)));
    assert(obj_get(fields, "end"@) == Option::Some(JsonVal::UInt(v.end as u64)));
    assert(obj_get(fields, "username"@) == Option::Some(JsonVal::Str(v.username)));
}

/// Parsing the canonical document of this value yields it again.
pub proof fn lemma_annotation_round_trip(v: EntityAnnotationView)
    ensures
        spec_parse_annotation(annotation_jsonval(v)) == Option::Some(v),
{
    reveal_with_fuel(obj_get, 7);
    reveal_strlit("start");
    reveal_strlit("end");
    reveal_strlit("probability");
    reveal_strlit("type");
    reveal_strlit("normalized_text");
    assert("start"@ =~= seq!['s', 't', 'a', 'r', 't']);
    assert("end"@ =~= seq!['e', 'n', 'd']);
    assert("probability"@ =~= seq!['p', 'r', 'o', 'b', 'a', 'b', 'i', 'l', 'i', 't', 'y']);
    assert("type"@ =~= seq!['t', 'y', 'p', 'e']);
    assert("normalized_text"@ =~= seq!['n', 'o', 'r', 'm', 'a', 'l', 'i', 'z', 'e', 'd', '_', 't', 'e', 'x', 't']);
    let fields = annotation_jsonval(v)->Obj_0;
    let f1 = fields.drop_first();
    assert(f1 =~= seq![("end"@, JsonVal::UInt(v.end as u64)), ("probability"@, JsonVal::Number(v.probability)), ("type"@, JsonVal::Str(v.annotation_type)), ("normalized_text"@, JsonVal::Str(v.normalized_text))]);
    let f2 = f1.drop_first();
    assert(f2 =~= seq![("probability"@, JsonVal::Number(v.probability)), ("type"@, JsonVal::Str(v.annotation_type)), ("normalized_text"@, JsonVal::Str(v.normalized_text))]);
    let f3 = f2.drop_first();
    assert(f3 =~= seq![("type"@, JsonVal::Str(v.annotation_type)), ("normalized_text"@, JsonVal::Str(v.normalized_text))]);
    let f4 = f3.drop_first();
    assert(f4 =~= seq![("normalized_text"@, JsonVal::Str(v.normalized_text))]);
    assert(obj_get(fields, "start"@) == Option::Some(JsonVal::UInt(v.start as u64)));
    assert(obj_get(fields, "end"@) == Option::Some(JsonVal::UInt(v.end as u64)));
    assert(obj_get(fields, "probability"@) == Option::Some(JsonVal::Number(v.probability)));
    assert(obj_get(fields, "type"@) == Option::Some(JsonVal::Str(v.annotation_type)));
    assert(obj_get(fields, "normalized_text"@) == Option::Some(JsonVal::Str(v.normalized_text)));
}

/// Parsing the canonical document of this value yields it again.
pub proof fn lemma_url_round_trip(v: EntityUrlView)
    ensures
        spec_parse_url(url_jsonval(v)) == Option::Some(v),
{
    reveal_with_fuel(obj_get, 12);
    reveal_strlit("start");
    reveal_strlit("end");
    reveal_strlit("url");
    reveal_strlit("expanded_url");
    reveal_strlit("display_url");
    reveal_strlit("unwound_url");
    reveal_strlit("images");
    reveal_strlit("status");
    reveal_strlit("title");
    reveal_strlit("description");
    assert("start"@ =~= seq!['s', 't', 'a', 'r', 't']);
    assert("end"@ =~= seq!['e', 'n', 'd']);
    assert("url"@ =~= seq!['u', 'r', 'l']);
    assert("expanded_url"@ =~= seq!['e', 'x', 'p', 'a', 'n', 'd', 'e', 'd', '_', 'u', 'r', 'l']);
    assert("display_url"@ =~= seq!['d', 'i', 's', 'p', 'l', 'a', 'y', '_', 'u', 'r', 'l']);
    assert("unwound_url"@ =~= seq!['u', 'n', 'w', 'o', 'u', 'n', 'd', '_', 'u', 'r', 'l']);
    assert("images"@ =~= seq!['i', 'm', 'a', 'g', 'e', 's']);
    assert("status"@ =~= seq!['s', 't', 'a', 't', 'u', 's']);
    assert("title"@ =~= seq!['t', 'i', 't', 'l', 'e']);
    assert("description"@ =~= seq!['d', 'e', 's', 'c', 'r', 'i', 'p', 't', 'i', 'o', 'n']);
    match v.images {
        Option::Some(s) => lemma_images_round_trip(s),
        Option::None => {},
    }
    let fields = url_jsonval(v)->Obj_0;
    let f1 = fields.drop_first();
    assert(f1 =~= seq![("end"@, JsonVal::UInt(v.end as u64)), ("url"@, JsonVal::Str(v.url)), ("expanded_url"@, JsonVal::Str(v.expanded_url)), ("display_url"@, JsonVal::Str(v.display_url)), ("unwound_url"@, opt_str_val(v.unwound_url)), ("images"@, opt_images_val(v.images)), ("status"@, opt_usize_val(v.status)), ("title"@, opt_str_val(v.title)), ("description"@, opt_str_val(v.description))]);
    let f2 = f1.drop_first();
    assert(f2 =~= seq![("url"@, JsonVal::Str(v.url)), ("expanded_url"@, JsonVal::Str(v.expanded_url)), ("display_url"@, JsonVal::Str(v.display_url)), ("unwound_url"@, opt_str_val(v.unwound_url)), ("images"@, opt_images_val(v.images)), ("status"@, opt_usize_val(v.status)), ("title"@, opt_str_val(v.title)), ("description"@, opt_str_val(v.description))]);
    let f3 = f2.drop_first();
    assert(f3 =~= seq![("expanded_url"@, JsonVal::Str(v.expanded_url)), ("display_url"@, JsonVal::Str(v.display_url)), ("unwound_url"@, opt_str_val(v.unwound_url)), ("images"@, opt_images_val(v.images)), ("status"@, opt_usize_val(v.status)), ("title"@, opt_str_val(v.title)), ("description"@, opt_str_val(v.description))]);
    let f4 = f3.drop_first();
    assert(f4 =~= seq![("display_url"@, JsonVal::Str(v.display_url)), ("unwound_url"@, opt_str_val(v.unwound_url)), ("images"@, opt_images_val(v.images)), ("status"@, opt_usize_val(v.status)), ("title"@, opt_str_val(v.title)), ("description"@, opt_str_val(v.description))]);
    let f5 = f4.drop_first();
    assert(f5 =~= seq![("unwound_url"@, opt_str_val(v.unwound_url)), ("images"@, opt_images_val(v.images)), ("status"@, opt_usize_val(v.status)), ("title"@, opt_str_val(v.title)), ("description"@, opt_str_val(v.description))]);
    let f6 = f5.drop_first();
    assert(f6 =~= seq![("images"@, opt_images_val(v.images)), ("status"@, opt_usize_val(v.status)), ("title"@, opt_str_val(v.title)), ("description"@, opt_str_val(v.description))]);
    let f7 = f6.drop_first();
    assert(f7 =~= seq![("status"@, opt_usize_val(v.status)), ("title"@, opt_str_val(v.title)), ("description"@, opt_str_val(v.description))]);
    let f8 = f7.drop_first();
    assert(f8 =~= seq![("title"@, opt_str_val(v.title)), ("description"@, opt_str_val(v.description))]);
    let f9 = f8.drop_first();
    assert(f9 =~= seq![("description"@, opt_str_val(v.description))]);
    assert(obj_get(fields, "start"@) == Option::Some(JsonVal::UInt(v.start as u64)));
    assert(obj_get(fields, "end"@) == Option::Some(JsonVal::UInt(v.end as u64)));
    assert(obj_get(fields, "url"@) == Option::Some(JsonVal::Str(v.url)));
    assert(obj_get(fields, "expanded_url"@) == Option::Some(JsonVal::Str(v.expanded_url)));
    assert(obj_get(fields, "display_url"@) == Option::Some(JsonVal::Str(v.display_url)));
    assert(obj_get(fields, "unwound_url"@) == Option::Some(opt_str_val(v.unwound_url)));
    assert(obj_get(fields, "images"@) == Option::Some(opt_images_val(v.images)));
    assert(obj_get(fields, "status"@) == Option::Some(opt_usize_val(v.status)));
    assert(obj_get(fields, "title"@) == Option::Some(opt_str_val(v.title)));
    assert(obj_get(fields, "description"@) == Option::Some(opt_str_val(v.description)));
}

/// Parsing the canonical document of this value yields it again.
pub proof fn lemma_metrics_round_trip(v: PublicMetrics)
    ensures
        spec_parse_metrics(metrics_jsonval(v)) == Option::Some(v),
{
    reveal_with_fuel(obj_get, 6);
    reveal_strlit("retweet_count");
    reveal_strlit("reply_count");
    reveal_strlit("like_count");
    reveal_strlit("quote_count");
    assert("retweet_count"@ =~= seq!['r', 'e', 't', 'w', 'e', 'e', 't', '_', 'c', 'o', 'u', 'n', 't']);
    assert("reply_count"@ =~= seq!['r', 'e', 'p', 'l', 'y', '_', 'c', 'o', 'u', 'n', 't']);
    assert("like_count"@ =~= seq!['l', 'i', 'k', 'e', '_', 'c', 'o', 'u', 'n', 't']);
    assert("quote_count"@ =~= seq!['q', 'u', 'o', 't', 'e', '_', 'c', 'o', 'u', 'n', 't']);
    let fields = metrics_jsonval(v)->Obj_0;
    let f1 = fields.drop_first();
    assert(f1 =~= seq![("reply_count"@, JsonVal::UInt(v.reply_count as u64)), ("like_count"@, JsonVal::UInt(v.like_count as u64)), ("quote_count"@, JsonVal::UInt(v.quote_count as u64))]);
    let f2 = f1.drop_first();
    assert(f2 =~= seq![("like_count"@, JsonVal::UInt(v.like_count as u64)), ("quote_count"@, JsonVal::UInt(v.quote_count as u64))]);
    let f3 = f2.drop_first();
    assert(f3 =~= seq![("quote_count"@, JsonVal::UInt(v.quote_count as u64))]);
    assert(obj_get(fields, "retweet_count"@) == Option::Some(JsonVal::UInt(v.retweet_count as u64)));
    assert(obj_get(fields, "reply_count"@) == Option::Some(JsonVal::UInt(v.reply_count as u64)));
    assert(obj_get(fields, "like_count"@) == Option::Some(JsonVal::UInt(v.like_count as u64)));
    assert(obj_get(fields, "quote_count"@) == Option::Some(JsonVal::UInt(v.quote_count as u64)));
}

/// Parsing the canonical document of this value yields it again.
pub proof fn lemma_entities_round_trip(v: EntitiesView)
    ensures
        spec_parse_entities(entities_jsonval(v)) == Option::Some(v),
{
    reveal_with_fuel(obj_get, 7);
    reveal_strlit("annotations");
    reveal_strlit("urls");
    reveal_strlit("hashtags");
    reveal_strlit("mentions");
    reveal_strlit("cashtags");
    assert("annotations"@ =~= seq!['a', 'n', 'n', 'o', 't', 'a', 't', 'i', 'o', 'n', 's']);
    assert("urls"@ =~= seq!['u', 'r', 'l', 's']);
    assert("hashtags"@ =~= seq!['h', 'a', 's', 'h', 't', 'a', 'g', 's']);
    assert("mentions"@ =~= seq!['m', 'e', 'n', 't', 'i', 'o', 'n', 's']);
    assert("cashtags"@ =~= seq!['c', 'a', 's', 'h', 't', 'a', 'g', 's']);
    match v.annotations {
        Option::Some(s) => lemma_annotations_round_trip(s),
        Option::None => {},
    }
    match v.urls {
        Option::Some(s) => lemma_urls_round_trip(s),
        Option::None => {},
    }
    match v.hashtags {
        Option::Some(s) => lemma_tags_round_trip(s),
        Option::None => {},
    }
    match v.mentions {
        Option::Some(s) => lemma_mentions_round_trip(s),
        Option::None => {},
    }
    match v.cashtags {
        Option::Some(s) => lemma_tags_round_trip(s),
        Option::None => {},
    }
    let fields = entities_jsonval(v)->Obj_0;
    let f1 = fields.drop_first();
    assert(f1 =~= seq![("urls"@, opt_urls_val(v.urls)), ("hashtags"@, opt_tags_val(v.hashtags)), ("mentions"@, opt_mentions_val(v.mentions)), ("cashtags"@, opt_tags_val(v.cashtags))]);
    let f2 = f1.drop_first();
    assert(f2 =~= seq![("hashtags"@, opt_tags_val(v.hashtags)), ("mentions"@, opt_mentions_val(v.mentions)), ("cashtags"@, opt_tags_val(v.cashtags))]);
    let f3 = f2.drop_first();
    assert(f3 =~= seq![("mentions"@, opt_mentions_val(v.mentions)), ("cashtags"@, opt_tags_val(v.cashtags))]);
    let f4 = f3.drop_first();
    assert(f4 =~= seq![("cashtags"@, opt_tags_val(v.cashtags))]);
    assert(obj_get(fields, "annotations"@) == Option::Some(opt_annotations_val(v.annotations)));
    assert(obj_get(fields, "urls"@) == Option::Some(opt_urls_val(v.urls)));
    assert(obj_get(fields, "hashtags"@) == Option::Some(opt_tags_val(v.hashtags)));
    assert(obj_get(fields, "mentions"@) == Option::Some(opt_mentions_val(v.mentions)));
    assert(obj_get(fields, "cashtags"@) == Option::Some(opt_tags_val(v.cashtags)));
}

/// Parsing the canonical document of this value yields it again.
#[verifier::rlimit(80)]
pub proof fn lemma_data_round_trip(v: StreamResponseDataView)
    ensures
        spec_parse_data(data_jsonval(v)) == Option::Some(v),
{
    reveal_with_fuel(obj_get, 10);
    reveal_strlit("id");
    reveal_strlit("text");
    reveal_strlit("created_at");
    reveal_strlit("conversation_id");
    reveal_strlit("author_id");
    reveal_strlit("referenced_tweets");
    reveal_strlit("public_metrics");
    reveal_strlit("entities");
    assert("id"@ =~= seq!['i', 'd']);
    assert("text"@ =~= seq!['t', 'e', 'x', 't']);
    assert("created_at"@ =~= seq!['c', 'r', 'e', 'a', 't', 'e', 'd', '_', 'a', 't']);
    assert("conversation_id"@ =~= seq!['c', 'o', 'n', 'v', 'e', 'r', 's', 'a', 't', 'i', 'o', 'n', '_', 'i', 'd']);
    assert("author_id"@ =~= seq!['a', 'u', 't', 'h', 'o', 'r', '_', 'i', 'd']);
    assert("referenced_tweets"@ =~= seq!['r', 'e', 'f', 'e', 'r', 'e', 'n', 'c', 'e', 'd', '_', 't', 'w', 'e', 'e', 't', 's']);
    assert("public_metrics"@ =~= seq!['p', 'u', 'b', 'l', 'i', 'c', '_', 'm', 'e', 't', 'r', 'i', 'c', 's']);
    assert("entities"@ =~= seq!['e', 'n', 't', 'i', 't', 'i', 'e', 's']);
    match v.referenced_tweets {
        Option::Some(s) => lemma_refs_round_trip(s),
        Option::None => {},
    }
    lemma_metrics_round_trip(v.public_metrics);
    match v.entities {
        Option::Some(e) => lemma_entities_round_trip(e),
        Option::None => {},
    }
    let fields = data_jsonval(v)->Obj_0;
    let f1 = fields.drop_first();
    assert(f1 =~= seq![("text"@, JsonVal::Str(v.text)), ("created_at"@, JsonVal::Str(v.created_at)), ("conversation_id"@, JsonVal::Str(v.conversation_id)), ("author_id"@, opt_str_val(v.author_id)), ("referenced_tweets"@, opt_refs_val(v.referenced_tweets)), ("public_metrics"@, metrics_jsonval(v.public_metrics)), ("entities"@, opt_entities_val(v.entities))]);
    let f2 = f1.drop_first();
    assert(f2 =~= seq![("created_at"@, JsonVal::Str(v.created_at)), ("conversation_id"@, JsonVal::Str(v.conversation_id)), ("author_id"@, opt_str_val(v.author_id)), ("referenced_tweets"@, opt_refs_val(v.referenced_tweets)), ("public_metrics"@, metrics_jsonval(v.public_metrics)), ("entities"@, opt_entities_val(v.entities))]);
    let f3 = f2.drop_first();
    assert(f3 =~= seq![("conversation_id"@, JsonVal::Str(v.conversation_id)), ("author_id"@, opt_str_val(v.author_id)), ("referenced_tweets"@, opt_refs_val(v.referenced_tweets)), ("public_metrics"@, metrics_jsonval(v.public_metrics)), ("entities"@, opt_entities_val(v.entities))]);
    let f4 = f3.drop_first();
    assert(f4 =~= seq![("author_id"@, opt_str_val(v.author_id)), ("referenced_tweets"@, opt_refs_val(v.referenced_tweets)), ("public_metrics"@, metrics_jsonval(v.public_metrics)), ("entities"@, opt_entities_val(v.entities))]);
    let f5 = f4.drop_first();
    assert(f5 =~= seq![("referenced_tweets"@, opt_refs_val(v.referenced_tweets)), ("public_metrics"@, metrics_jsonval(v.public_metrics)), ("entities"@, opt_entities_val(v.entities))]);
    let f6 = f5.drop_first();
    assert(f6 =~= seq![("public_metrics"@, metrics_jsonval(v.public_metrics)), ("entities"@, opt_entities_val(v.entities))]);
    let f7 = f6.drop_first();
    assert(f7 =~= seq![("entities"@, opt_entities_val(v.entities))]);
    assert(obj_get(fields, "id"@) == Option::Some(JsonVal::Str(v.id)));
    assert(obj_get(fields, "text"@) == Option::Some(JsonVal::Str(v.text)));
    assert(obj_get(fields, "created_at"@) == Option::Some(JsonVal::Str(v.created_at)));
    assert(obj_get(fields, "conversation_id"@) == Option::Some(JsonVal::Str(v.conversation_id)));
    assert(obj_get(fields, "author_id"@) == Option::Some(opt_str_val(v.author_id)));
    assert(obj_get(fields, "referenced_tweets"@) == Option::Some(opt_refs_val(v.referenced_tweets)));
    assert(obj_get(fields, "public_metrics"@) == Option::Some(metrics_jsonval(v.public_metrics)));
    assert(obj_get(fields, "entities"@) == Option::Some(opt_entities_val(v.entities)));
}

/// Round trip: serializing a parsed event and re-parsing it yields an
/// equal event, field for field.
pub proof fn lemma_event_round_trip(v: StreamResponseView)
    ensures
        spec_parse_response(response_jsonval(v)) == Option::Some(v),
{
    reveal_with_fuel(obj_get, 4);
    reveal_strlit("data");
    reveal_strlit("matching_rules");
    assert("data"@ =~= seq!['d', 'a', 't', 'a']);
    assert("matching_rules"@ =~= seq!['m', 'a', 't', 'c', 'h', 'i', 'n', 'g', '_', 'r', 'u', 'l', 'e', 's']);
    lemma_data_round_trip(v.data);
    match v.matching_rules {
        Option::Some(s) => lemma_rule_matches_round_trip(s),
        Option::None => {},
    }
    let fields = response_jsonval(v)->Obj_0;
    let f1 = fields.drop_first();
    assert(f1 =~= seq![("matching_rules"@, opt_rule_matches_val(v.matching_rules))]);
    assert(obj_get(fields, "data"@) == Option::Some(data_jsonval(v.data)));
    assert(obj_get(fields, "matching_rules"@) == Option::Some(opt_rule_matches_val(v.matching_rules)));
}

/// Parsing the canonical documents of a list yields the list again.
pub proof fn lemma_refs_round_trip(s: Seq<ReferencedTweetsView>)
    ensures
        spec_parse_refs(s.map_values(|e: ReferencedTweetsView| ref_jsonval(e))) == Option::Some(s),
    decreases s.len(),
{
    let m = s.map_values(|e: ReferencedTweetsView| ref_jsonval(e));
    if s.len() == 0 {
        assert(s =~= Seq::<ReferencedTweetsView>::empty());
    } else {
        lemma_ref_round_trip(s[0]);
        lemma_refs_round_trip(s.drop_first());
        assert(s.drop_first().map_values(|e: ReferencedTweetsView| ref_jsonval(e)) =~= m.drop_first());
        assert(seq![s[0]] + s.drop_first() =~= s);
    }
}

/// Parsing the canonical documents of a list yields the list again.
pub proof fn lemma_rule_matches_round_trip(s: Seq<RuleMatchView>)
    ensures
        spec_parse_rule_matches(s.map_values(|e: RuleMatchView| rule_match_jsonval(e))) == Option::Some(s),
    decreases s.len(),
{
    let m = s.map_values(|e: RuleMatchView| rule_match_jsonval(e));
    if s.len() == 0 {
        assert(s =~= Seq::<RuleMatchView>::empty());
    } else {
        lemma_rule_match_round_trip(s[0]);
        lemma_rule_matches_round_trip(s.drop_first());
        assert(s.drop_first().map_values(|e: RuleMatchView| rule_match_jsonval(e)) =~= m.drop_first());
        assert(seq![s[0]] + s.drop_first() =~= s);
    }
}

/// Parsing the canonical documents of a list yields the list again.
pub proof fn lemma_images_round_trip(s: Seq<UrlImageView>)
    ensures
        spec_parse_images(s.map_values(|e: UrlImageView| image_jsonval(e))) == Option::Some(s),
    decreases s.len(),
{
    let m = s.map_values(|e: UrlImageView| image_jsonval(e));
    if s.len() == 0 {
        assert(s =~= Seq::<UrlImageView>::empty());
    } else {
        lemma_image_round_trip(s[0]);
        lemma_images_round_trip(s.drop_first());
        assert(s.drop_first().map_values(|e: UrlImageView| image_jsonval(e)) =~= m.drop_first());
        assert(seq![s[0]] + s.drop_first() =~= s);
    }
}

/// Parsing the canonical documents of a list yields the list again.
pub proof fn lemma_tags_round_trip(s: Seq<EntityTagView>)
    ensures
        spec_parse_tags(s.map_values(|e: EntityTagView| tag_jsonval(e))) == Option::Some(s),
    decreases s.len(),
{
    let m = s.map_values(|e: EntityTagView| tag_jsonval(e));
    if s.len() == 0 {
        assert(s =~= Seq::<EntityTagView>::empty());
    } else {
        lemma_tag_round_trip(s[0]);
        lemma_tags_round_trip(s.drop_first());
        assert(s.drop_first().map_values(|e: EntityTagView| tag_jsonval(e)) =~= m.drop_first());
        assert(seq![s[0]] + s.drop_first() =~= s);
    }
}

/// Parsing the canonical documents of a list yields the list again.
pub proof fn lemma_mentions_round_trip(s: Seq<EntityMentionView>)
    ensures
        spec_parse_mentions(s.map_values(|e: EntityMentionView| mention_jsonval(e))) == Option::Some(s),
    decreases s.len(),
{
    let m = s.map_values(|e: EntityMentionView| mention_jsonval(e));
    if s.len() == 0 {
        assert(s =~= Seq::<EntityMentionView>::empty());
    } else {
        lemma_mention_round_trip(s[0]);
        lemma_mentions_round_trip(s.drop_first());
        assert(s.drop_first().map_values(|e: EntityMentionView| mention_jsonval(e)) =~= m.drop_first());
        assert(seq![s[0]] + s.drop_first() =~= s);
    }
}

/// Parsing the canonical documents of a list yields the list again.
pub proof fn lemma_annotations_round_trip(s: Seq<EntityAnnotationView>)
    ensures
        spec_parse_annotations(s.map_values(|e: EntityAnnotationView| annotation_jsonval(e))) == Option::Some(s),
    decreases s.len(),
{
    let m = s.map_values(|e: EntityAnnotationView| annotation_jsonval(e));
    if s.len() == 0 {
        assert(s =~= Seq::<EntityAnnotationView>::empty());
    } else {
        lemma_annotation_round_trip(s[0]);
        lemma_annotations_round_trip(s.drop_first());
        assert(s.drop_first().map_values(|e: EntityAnnotationView| annotation_jsonval(e)) =~= m.drop_first());
        assert(seq![s[0]] + s.drop_first() =~= s);
    }
}

/// Parsing the canonical documents of a list yields the list again.
pub proof fn lemma_urls_round_trip(s: Seq<EntityUrlView>)
    ensures
        spec_parse_urls(s.map_values(|e: EntityUrlView| url_jsonval(e))) == Option::Some(s),
    decreases s.len(),
{
    let m = s.map_values(|e: EntityUrlView| url_jsonval(e));
    if s.len() == 0 {
        assert(s =~= Seq::<EntityUrlView>::empty());
    } else {
        lemma_url_round_trip(s[0]);
        lemma_urls_round_trip(s.drop_first());
        assert(s.drop_first().map_values(|e: EntityUrlView| url_jsonval(e)) =~= m.drop_first());
        assert(seq![s[0]] + s.drop_first() =~= s);
    }
}

/// The canonical JSON text of one event.
pub fn event_to_json_string(x: &StreamResponse) -> (r: String)
    ensures
        r@ == crate::json::emit_json(response_jsonval(x@)),
{
    let doc = response_to_json(x);
    crate::json::json_to_string(&doc)
}
} // verus!
