//! Schema extraction: from a JSON document to a typed event.
//!
//! A document matches the event schema exactly when `spec_parse_response`
//! yields a value; the executable functions return precisely what the spec
//! functions describe. Unknown fields of an object are ignored; a missing
//! or null optional field is `None`; a present field of the wrong shape
//! rejects the document.

use vstd::prelude::*;

use crate::event::EntitiesView;
use crate::event::EntityAnnotation;
use crate::event::EntityAnnotationView;
use crate::event::EntityMention;
use crate::event::EntityMentionView;
use crate::event::EntityTag;
use crate::event::EntityTagView;
use crate::event::EntityUrl;
use crate::event::EntityUrlView;
use crate::event::Entities;
use crate::event::PublicMetrics;
use crate::event::ReferencedTweets;
use crate::event::ReferencedTweetsView;
use crate::event::RuleMatch;
use crate::event::RuleMatchView;
use crate::event::StreamResponse;
use crate::event::StreamResponseData;
use crate::event::StreamResponseDataView;
use crate::event::StreamResponseView;
use crate::event::UrlImage;
use crate::event::UrlImageView;
use crate::json::Json;
use crate::json::JsonVal;
use crate::json::chars_to_string;
use crate::json::dec_digits;
use crate::json::obj_get;
use crate::json::obj_lookup;
use crate::json::obj_view;
use crate::json::push_u64_digits;
use crate::json::arr_view;
use crate::json::lemma_arr_view_len;
use crate::json::lemma_arr_view_index;

verus! {

broadcast use vstd::seq::group_seq_axioms, vstd::std_specs::vec::group_vec_axioms;

/// A required string field.
pub open spec fn spec_get_string(fields: Seq<(Seq<char>, JsonVal)>, key: Seq<char>) -> Option<
    Seq<char>,
> {
    match obj_get(fields, key) {
        Option::Some(JsonVal::Str(s)) => Option::Some(s),
        _ => Option::None,
    }
}

/// A required unsigned-integer field that fits the platform's word.
pub open spec fn spec_get_usize(fields: Seq<(Seq<char>, JsonVal)>, key: Seq<char>) -> Option<
    usize,
> {
    match obj_get(fields, key) {
        Option::Some(JsonVal::UInt(u)) => if u <= usize::MAX {
            Option::Some(u as usize)
        } else {
            Option::None
        },
        _ => Option::None,
    }
}

/// An optional string field: missing or null is `None`.
pub open spec fn spec_opt_string(fields: Seq<(Seq<char>, JsonVal)>, key: Seq<char>) -> Option<
    Option<Seq<char>>,
> {
    match obj_get(fields, key) {
        Option::None => Option::Some(Option::None),
        Option::Some(JsonVal::Null) => Option::Some(Option::None),
        Option::Some(JsonVal::Str(s)) => Option::Some(Option::Some(s)),
        Option::Some(_) => Option::None,
    }
}

/// An optional unsigned-integer field: missing or null is `None`.
pub open spec fn spec_opt_usize(fields: Seq<(Seq<char>, JsonVal)>, key: Seq<char>) -> Option<
    Option<usize>,
> {
    match obj_get(fields, key) {
        Option::None => Option::Some(Option::None),
        Option::Some(JsonVal::Null) => Option::Some(Option::None),
        Option::Some(JsonVal::UInt(u)) => if u <= usize::MAX {
            Option::Some(Option::Some(u as usize))
        } else {
            Option::None
        },
        Option::Some(_) => Option::None,
    }
}

/// A required numeric field, kept as text; an integer keeps its digits.
pub open spec fn spec_get_number_text(fields: Seq<(Seq<char>, JsonVal)>, key: Seq<char>) -> Option<
    Seq<char>,
> {
    match obj_get(fields, key) {
        Option::Some(JsonVal::UInt(u)) => Option::Some(dec_digits(u as nat)),
        Option::Some(JsonVal::Number(s)) => Option::Some(s),
        _ => Option::None,
    }
}

pub fn get_string_field(fields: &Vec<(String, Json)>, key: &str) -> (r: Option<String>)
    ensures
        match r {
            Option::Some(s) => spec_get_string(obj_view(fields@), key@) == Option::Some(s@),
            Option::None => spec_get_string(obj_view(fields@), key@) is None,
        },
{
    match obj_lookup(fields, key) {
        Option::Some(Json::Str(s)) => Option::Some(s.clone()),
        _ => Option::None,
    }
}

pub fn get_usize_field(fields: &Vec<(String, Json)>, key: &str) -> (r: Option<usize>)
    ensures
        r == spec_get_usize(obj_view(fields@), key@),
{
    match obj_lookup(fields, key) {
        Option::Some(Json::UInt(u)) => if *u <= usize::MAX as u64 {
            Option::Some(*u as usize)
        } else {
            Option::None
        },
        _ => Option::None,
    }
}

pub fn opt_string_field(fields: &Vec<(String, Json)>, key: &str) -> (r: Option<Option<String>>)
    ensures
        match r {
            Option::Some(Option::Some(s)) => spec_opt_string(obj_view(fields@), key@)
                == Option::Some(Option::Some(s@)),
            Option::Some(Option::None) => spec_opt_string(obj_view(fields@), key@) == Option::Some(
                Option::None::<Seq<char>>,
            ),
            Option::None => spec_opt_string(obj_view(fields@), key@) is None,
        },
{
    match obj_lookup(fields, key) {
        Option::None => Option::Some(Option::None),
        Option::Some(Json::Null) => Option::Some(Option::None),
        Option::Some(Json::Str(s)) => Option::Some(Option::Some(s.clone())),
        Option::Some(_) => Option::None,
    }
}

pub fn opt_usize_field(fields: &Vec<(String, Json)>, key: &str) -> (r: Option<Option<usize>>)
    ensures
        r == spec_opt_usize(obj_view(fields@), key@),
{
    match obj_lookup(fields, key) {
        Option::None => Option::Some(Option::None),
        Option::Some(Json::Null) => Option::Some(Option::None),
        Option::Some(Json::UInt(u)) => if *u <= usize::MAX as u64 {
            Option::Some(Option::Some(*u as usize))
        } else {
            Option::None
        },
        Option::Some(_) => Option::None,
    }
}

pub fn get_number_text_field(fields: &Vec<(String, Json)>, key: &str) -> (r: Option<String>)
    ensures
        match r {
            Option::Some(s) => spec_get_number_text(obj_view(fields@), key@) == Option::Some(s@),
            Option::None => spec_get_number_text(obj_view(fields@), key@) is None,
        },
{
    match obj_lookup(fields, key) {
        Option::Some(Json::UInt(u)) => {
            let mut digits: Vec<char> = Vec::new();
            push_u64_digits(&mut digits, *u);
            Option::Some(chars_to_string(digits))
        },
        Option::Some(Json::Number(s)) => Option::Some(s.clone()),
        _ => Option::None,
    }
}

/// One referenced-tweet link.
pub open spec fn spec_parse_ref(v: JsonVal) -> Option<ReferencedTweetsView> {
    match v {
        JsonVal::Obj(fields) => match (
            spec_get_string(fields, "id"@),
            spec_get_string(fields, "type"@),
        ) {
            (Option::Some(id), Option::Some(t)) => Option::Some(
                ReferencedTweetsView { id: id, reference_type: t },
            ),
            _ => Option::None,
        },
        _ => Option::None,
    }
}

pub open spec fn spec_parse_refs(items: Seq<JsonVal>) -> Option<Seq<ReferencedTweetsView>>
    decreases items,
{
    if items.len() == 0 {
        Option::Some(Seq::empty())
    } else {
        match (spec_parse_ref(items[0]), spec_parse_refs(items.drop_first())) {
            (Option::Some(x), Option::Some(rest)) => Option::Some(seq![x] + rest),
            _ => Option::None,
        }
    }
}

pub open spec fn spec_opt_refs(fields: Seq<(Seq<char>, JsonVal)>, key: Seq<char>) -> Option<
    Option<Seq<ReferencedTweetsView>>,
> {
    match obj_get(fields, key) {
        Option::None => Option::Some(Option::None),
        Option::Some(JsonVal::Null) => Option::Some(Option::None),
        Option::Some(JsonVal::Arr(items)) => match spec_parse_refs(items) {
            Option::Some(s) => Option::Some(Option::Some(s)),
            Option::None => Option::None,
        },
        Option::Some(_) => Option::None,
    }
}

pub fn parse_ref(j: &Json) -> (r: Option<ReferencedTweets>)
    ensures
        match r {
            Option::Some(x) => spec_parse_ref(j@) == Option::Some(x@),
            Option::None => spec_parse_ref(j@) is None,
        },
{
    match j {
        Json::Obj(fields) => match (
            get_string_field(fields, "id"),
            get_string_field(fields, "type"),
        ) {
            (Option::Some(id), Option::Some(t)) => Option::Some(
                ReferencedTweets { id, reference_type: t },
            ),
            _ => Option::None,
        },
        _ => Option::None,
    }
}

pub fn parse_refs(items: &Vec<Json>) -> (r: Option<Vec<ReferencedTweets>>)
    ensures
        match r {
            Option::Some(v) => spec_parse_refs(arr_view(items@)) == Option::Some(
                v@.map_values(|e: ReferencedTweets| e@),
            ),
            Option::None => spec_parse_refs(arr_view(items@)) is None,
        },
{
    let ghost all = arr_view(items@);
    proof {
        lemma_arr_view_len(items@);
        assert(all.skip(0int) =~= all);
    }
    let mut out: Vec<ReferencedTweets> = Vec::new();
    let mut i: usize = 0;
    while i < items.len()
        invariant
            i <= items@.len(),
            all == arr_view(items@),
            all.len() == items@.len(),
            out@.len() == i,
            spec_parse_refs(all) == (match spec_parse_refs(all.skip(i as int)) {
                Option::Some(rest) => Option::Some(
                    out@.map_values(|e: ReferencedTweets| e@) + rest,
                ),
                Option::None => Option::None::<Seq<ReferencedTweetsView>>,
            }),
        decreases items@.len() - i,
    {
        proof {
            lemma_arr_view_index(items@, i as int);
            assert(all.skip(i as int)[0] == all[i as int]);
            assert(all.skip(i as int).drop_first() =~= all.skip(i + 1));
        }
        match parse_ref(&items[i]) {
            Option::Some(x) => {
                let ghost prev = out@;
                let ghost xv = x@;
                out.push(x);
                proof {
                    assert(out@.map_values(|e: ReferencedTweets| e@) =~= prev.map_values(
                        |e: ReferencedTweets| e@,
                    ) + seq![xv]);
                    let m = spec_parse_refs(all.skip(i + 1));
                    if m is Some {
                        let rest2 = m->0;
                        assert((prev.map_values(|e: ReferencedTweets| e@) + seq![xv]) + rest2
                            =~= prev.map_values(|e: ReferencedTweets| e@) + (seq![xv] + rest2));
                    }
                }
            },
            Option::None => {
                return Option::None;
            },
        }
        i += 1;
    }
    proof {
        assert(all.skip(items@.len() as int) =~= Seq::<JsonVal>::empty());
        assert(out@.map_values(|e: ReferencedTweets| e@) + Seq::<ReferencedTweetsView>::empty()
            =~= out@.map_values(|e: ReferencedTweets| e@));
    }
    Option::Some(out)
}

pub fn opt_refs_field(fields: &Vec<(String, Json)>, key: &str) -> (r: Option<
    Option<Vec<ReferencedTweets>>,
>)
    ensures
        match r {
            Option::Some(Option::Some(v)) => spec_opt_refs(obj_view(fields@), key@)
                == Option::Some(Option::Some(v@.map_values(|e: ReferencedTweets| e@))),
            Option::Some(Option::None) => spec_opt_refs(obj_view(fields@), key@) == Option::Some(
                Option::None::<Seq<ReferencedTweetsView>>,
            ),
            Option::None => spec_opt_refs(obj_view(fields@), key@) is None,
        },
{
    match obj_lookup(fields, key) {
        Option::None => Option::Some(Option::None),
        Option::Some(Json::Null) => Option::Some(Option::None),
        Option::Some(Json::Arr(items)) => match parse_refs(items) {
            Option::Some(v) => Option::Some(Option::Some(v)),
            Option::None => Option::None,
        },
        Option::Some(_) => Option::None,
    }
}


pub open spec fn spec_parse_rule_matches(items: Seq<JsonVal>) -> Option<Seq<RuleMatchView>>
    decreases items,
{
    if items.len() == 0 {
        Option::Some(Seq::empty())
    } else {
        match (spec_parse_rule_match(items[0]), spec_parse_rule_matches(items.drop_first())) {
            (Option::Some(x), Option::Some(rest)) => Option::Some(seq![x] + rest),
            _ => Option::None,
        }
    }
}

pub open spec fn spec_opt_rule_matches(fields: Seq<(Seq<char>, JsonVal)>, key: Seq<char>) -> Option<
    Option<Seq<RuleMatchView>>,
> {
    match obj_get(fields, key) {
        Option::None => Option::Some(Option::None),
        Option::Some(JsonVal::Null) => Option::Some(Option::None),
        Option::Some(JsonVal::Arr(items)) => match spec_parse_rule_matches(items) {
            Option::Some(s) => Option::Some(Option::Some(s)),
            Option::None => Option::None,
        },
        Option::Some(_) => Option::None,
    }
}

pub fn parse_rule_matches(items: &Vec<Json>) -> (r: Option<Vec<RuleMatch>>)
    ensures
        match r {
            Option::Some(v) => spec_parse_rule_matches(arr_view(items@)) == Option::Some(
                v@.map_values(|e: RuleMatch| e@),
            ),
            Option::None => spec_parse_rule_matches(arr_view(items@)) is None,
        },
{
    let ghost all = arr_view(items@);
    proof {
        lemma_arr_view_len(items@);
        assert(all.skip(0int) =~= all);
    }
    let mut out: Vec<RuleMatch> = Vec::new();
    let mut i: usize = 0;
    while i < items.len()
        invariant
            i <= items@.len(),
            all == arr_view(items@),
            all.len() == items@.len(),
            out@.len() == i,
            spec_parse_rule_matches(all) == (match spec_parse_rule_matches(all.skip(i as int)) {
                Option::Some(rest) => Option::Some(out@.map_values(|e: RuleMatch| e@) + rest),
                Option::None => Option::None::<Seq<RuleMatchView>>,
            }),
        decreases items@.len() - i,
    {
        proof {
            lemma_arr_view_index(items@, i as int);
            assert(all.skip(i as int)[0] == all[i as int]);
            assert(all.skip(i as int).drop_first() =~= all.skip(i + 1));
        }
        match parse_rule_match(&items[i]) {
            Option::Some(x) => {
                let ghost prev = out@;
                let ghost xv = x@;
                out.push(x);
                proof {
                    assert(out@.map_values(|e: RuleMatch| e@) =~= prev.map_values(|e: RuleMatch| e@)
                        + seq![xv]);
                    let m = spec_parse_rule_matches(all.skip(i + 1));
                    if m is Some {
                        let rest2 = m->0;
                        assert((prev.map_values(|e: RuleMatch| e@) + seq![xv]) + rest2
                            =~= prev.map_values(|e: RuleMatch| e@) + (seq![xv] + rest2));
                    }
                }
            },
            Option::None => {
                return Option::None;
            },
        }
        i += 1;
    }
    proof {
        assert(all.skip(items@.len() as int) =~= Seq::<JsonVal>::empty());
        assert(out@.map_values(|e: RuleMatch| e@) + Seq::<RuleMatchView>::empty() =~= out@.map_values(
            |e: RuleMatch| e@,
        ));
    }
    Option::Some(out)
}

pub fn opt_rule_matches_field(fields: &Vec<(String, Json)>, key: &str) -> (r: Option<
    Option<Vec<RuleMatch>>,
>)
    ensures
        match r {
            Option::Some(Option::Some(v)) => spec_opt_rule_matches(obj_view(fields@), key@)
                == Option::Some(Option::Some(v@.map_values(|e: RuleMatch| e@))),
            Option::Some(Option::None) => spec_opt_rule_matches(obj_view(fields@), key@)
                == Option::Some(Option::None::<Seq<RuleMatchView>>),
            Option::None => spec_opt_rule_matches(obj_view(fields@), key@) is None,
        },
{
    match obj_lookup(fields, key) {
        Option::None => Option::Some(Option::None),
        Option::Some(Json::Null) => Option::Some(Option::None),
        Option::Some(Json::Arr(items)) => match parse_rule_matches(items) {
            Option::Some(v) => Option::Some(Option::Some(v)),
            Option::None => Option::None,
        },
        Option::Some(_) => Option::None,
    }
}


pub open spec fn spec_parse_images(items: Seq<JsonVal>) -> Option<Seq<UrlImageView>>
    decreases items,
{
    if items.len() == 0 {
        Option::Some(Seq::empty())
    } else {
        match (spec_parse_image(items[0]), spec_parse_images(items.drop_first())) {
            (Option::Some(x), Option::Some(rest)) => Option::Some(seq![x] + rest),
            _ => Option::None,
        }
    }
}

pub open spec fn spec_opt_images(fields: Seq<(Seq<char>, JsonVal)>, key: Seq<char>) -> Option<
    Option<Seq<UrlImageView>>,
> {
    match obj_get(fields, key) {
        Option::None => Option::Some(Option::None),
        Option::Some(JsonVal::Null) => Option::Some(Option::None),
        Option::Some(JsonVal::Arr(items)) => match spec_parse_images(items) {
            Option::Some(s) => Option::Some(Option::Some(s)),
            Option::None => Option::None,
        },
        Option::Some(_) => Option::None,
    }
}

pub fn parse_images(items: &Vec<Json>) -> (r: Option<Vec<UrlImage>>)
    ensures
        match r {
            Option::Some(v) => spec_parse_images(arr_view(items@)) == Option::Some(
                v@.map_values(|e: UrlImage| e@),
            ),
            Option::None => spec_parse_images(arr_view(items@)) is None,
        },
{
    let ghost all = arr_view(items@);
    proof {
        lemma_arr_view_len(items@);
        assert(all.skip(0int) =~= all);
    }
    let mut out: Vec<UrlImage> = Vec::new();
    let mut i: usize = 0;
    while i < items.len()
        invariant
            i <= items@.len(),
            all == arr_view(items@),
            all.len() == items@.len(),
            out@.len() == i,
            spec_parse_images(all) == (match spec_parse_images(all.skip(i as int)) {
                Option::Some(rest) => Option::Some(out@.map_values(|e: UrlImage| e@) + rest),
                Option::None => Option::None::<Seq<UrlImageView>>,
            }),
        decreases items@.len() - i,
    {
        proof {
            lemma_arr_view_index(items@, i as int);
            assert(all.skip(i as int)[0] == all[i as int]);
            assert(all.skip(i as int).drop_first() =~= all.skip(i + 1));
        }
        match parse_image(&items[i]) {
            Option::Some(x) => {
                let ghost prev = out@;
                let ghost xv = x@;
                out.push(x);
                proof {
                    assert(out@.map_values(|e: UrlImage| e@) =~= prev.map_values(|e: UrlImage| e@)
                        + seq![xv]);
                    let m = spec_parse_images(all.skip(i + 1));
                    if m is Some {
                        let rest2 = m->0;
                        assert((prev.map_values(|e: UrlImage| e@) + seq![xv]) + rest2
                            =~= prev.map_values(|e: UrlImage| e@) + (seq![xv] + rest2));
                    }
                }
            },
            Option::None => {
                return Option::None;
            },
        }
        i += 1;
    }
    proof {
        assert(all.skip(items@.len() as int) =~= Seq::<JsonVal>::empty());
        assert(out@.map_values(|e: UrlImage| e@) + Seq::<UrlImageView>::empty() =~= out@.map_values(
            |e: UrlImage| e@,
        ));
    }
    Option::Some(out)
}

pub fn opt_images_field(fields: &Vec<(String, Json)>, key: &str) -> (r: Option<
    Option<Vec<UrlImage>>,
>)
    ensures
        match r {
            Option::Some(Option::Some(v)) => spec_opt_images(obj_view(fields@), key@)
                == Option::Some(Option::Some(v@.map_values(|e: UrlImage| e@))),
            Option::Some(Option::None) => spec_opt_images(obj_view(fields@), key@)
                == Option::Some(Option::None::<Seq<UrlImageView>>),
            Option::None => spec_opt_images(obj_view(fields@), key@) is None,
        },
{
    match obj_lookup(fields, key) {
        Option::None => Option::Some(Option::None),
        Option::Some(Json::Null) => Option::Some(Option::None),
        Option::Some(Json::Arr(items)) => match parse_images(items) {
            Option::Some(v) => Option::Some(Option::Some(v)),
            Option::None => Option::None,
        },
        Option::Some(_) => Option::None,
    }
}


pub open spec fn spec_parse_tags(items: Seq<JsonVal>) -> Option<Seq<EntityTagView>>
    decreases items,
{
    if items.len() == 0 {
        Option::Some(Seq::empty())
    } else {
        match (spec_parse_tag(items[0]), spec_parse_tags(items.drop_first())) {
            (Option::Some(x), Option::Some(rest)) => Option::Some(seq![x] + rest),
            _ => Option::None,
        }
    }
}

pub open spec fn spec_opt_tags(fields: Seq<(Seq<char>, JsonVal)>, key: Seq<char>) -> Option<
    Option<Seq<EntityTagView>>,
> {
    match obj_get(fields, key) {
        Option::None => Option::Some(Option::None),
        Option::Some(JsonVal::Null) => Option::Some(Option::None),
        Option::Some(JsonVal::Arr(items)) => match spec_parse_tags(items) {
            Option::Some(s) => Option::Some(Option::Some(s)),
            Option::None => Option::None,
        },
        Option::Some(_) => Option::None,
    }
}

pub fn parse_tags(items: &Vec<Json>) -> (r: Option<Vec<EntityTag>>)
    ensures
        match r {
            Option::Some(v) => spec_parse_tags(arr_view(items@)) == Option::Some(
                v@.map_values(|e: EntityTag| e@),
            ),
            Option::None => spec_parse_tags(arr_view(items@)) is None,
        },
{
    let ghost all = arr_view(items@);
    proof {
        lemma_arr_view_len(items@);
        assert(all.skip(0int) =~= all);
    }
    let mut out: Vec<EntityTag> = Vec::new();
    let mut i: usize = 0;
    while i < items.len()
        invariant
            i <= items@.len(),
            all == arr_view(items@),
            all.len() == items@.len(),
            out@.len() == i,
            spec_parse_tags(all) == (match spec_parse_tags(all.skip(i as int)) {
                Option::Some(rest) => Option::Some(out@.map_values(|e: EntityTag| e@) + rest),
                Option::None => Option::None::<Seq<EntityTagView>>,
            }),
        decreases items@.len() - i,
    {
        proof {
            lemma_arr_view_index(items@, i as int);
            assert(all.skip(i as int)[0] == all[i as int]);
            assert(all.skip(i as int).drop_first() =~= all.skip(i + 1));
        }
        match parse_tag(&items[i]) {
            Option::Some(x) => {
                let ghost prev = out@;
                let ghost xv = x@;
                out.push(x);
                proof {
                    assert(out@.map_values(|e: EntityTag| e@) =~= prev.map_values(|e: EntityTag| e@)
                        + seq![xv]);
                    let m = spec_parse_tags(all.skip(i + 1));
                    if m is Some {
                        let rest2 = m->0;
                        assert((prev.map_values(|e: EntityTag| e@) + seq![xv]) + rest2
                            =~= prev.map_values(|e: EntityTag| e@) + (seq![xv] + rest2));
                    }
                }
            },
            Option::None => {
                return Option::None;
            },
        }
        i += 1;
    }
    proof {
        assert(all.skip(items@.len() as int) =~= Seq::<JsonVal>::empty());
        assert(out@.map_values(|e: EntityTag| e@) + Seq::<EntityTagView>::empty() =~= out@.map_values(
            |e: EntityTag| e@,
        ));
    }
    Option::Some(out)
}

pub fn opt_tags_field(fields: &Vec<(String, Json)>, key: &str) -> (r: Option<
    Option<Vec<EntityTag>>,
>)
    ensures
        match r {
            Option::Some(Option::Some(v)) => spec_opt_tags(obj_view(fields@), key@)
                == Option::Some(Option::Some(v@.map_values(|e: EntityTag| e@))),
            Option::Some(Option::None) => spec_opt_tags(obj_view(fields@), key@)
                == Option::Some(Option::None::<Seq<EntityTagView>>),
            Option::None => spec_opt_tags(obj_view(fields@), key@) is None,
        },
{
    match obj_lookup(fields, key) {
        Option::None => Option::Some(Option::None),
        Option::Some(Json::Null) => Option::Some(Option::None),
        Option::Some(Json::Arr(items)) => match parse_tags(items) {
            Option::Some(v) => Option::Some(Option::Some(v)),
            Option::None => Option::None,
        },
        Option::Some(_) => Option::None,
    }
}


pub open spec fn spec_parse_mentions(items: Seq<JsonVal>) -> Option<Seq<EntityMentionView>>
    decreases items,
{
    if items.len() == 0 {
        Option::Some(Seq::empty())
    } else {
        match (spec_parse_mention(items[0]), spec_parse_mentions(items.drop_first())) {
            (Option::Some(x), Option::Some(rest)) => Option::Some(seq![x] + rest),
            _ => Option::None,
        }
    }
}

pub open spec fn spec_opt_mentions(fields: Seq<(Seq<char>, JsonVal)>, key: Seq<char>) -> Option<
    Option<Seq<EntityMentionView>>,
> {
    match obj_get(fields, key) {
        Option::None => Option::Some(Option::None),
        Option::Some(JsonVal::Null) => Option::Some(Option::None),
        Option::Some(JsonVal::Arr(items)) => match spec_parse_mentions(items) {
            Option::Some(s) => Option::Some(Option::Some(s)),
            Option::None => Option::None,
        },
        Option::Some(_) => Option::None,
    }
}

pub fn parse_mentions(items: &Vec<Json>) -> (r: Option<Vec<EntityMention>>)
    ensures
        match r {
            Option::Some(v) => spec_parse_mentions(arr_view(items@)) == Option::Some(
                v@.map_values(|e: EntityMention| e@),
            ),
            Option::None => spec_parse_mentions(arr_view(items@)) is None,
        },
{
    let ghost all = arr_view(items@);
    proof {
        lemma_arr_view_len(items@);
        assert(all.skip(0int) =~= all);
    }
    let mut out: Vec<EntityMention> = Vec::new();
    let mut i: usize = 0;
    while i < items.len()
        invariant
            i <= items@.len(),
            all == arr_view(items@),
            all.len() == items@.len(),
            out@.len() == i,
            spec_parse_mentions(all) == (match spec_parse_mentions(all.skip(i as int)) {
                Option::Some(rest) => Option::Some(out@.map_values(|e: EntityMention| e@) + rest),
                Option::None => Option::None::<Seq<EntityMentionView>>,
            }),
        decreases items@.len() - i,
    {
        proof {
            lemma_arr_view_index(items@, i as int);
            assert(all.skip(i as int)[0] == all[i as int]);
            assert(all.skip(i as int).drop_first() =~= all.skip(i + 1));
        }
        match parse_mention(&items[i]) {
            Option::Some(x) => {
                let ghost prev = out@;
                let ghost xv = x@;
                out.push(x);
                proof {
                    assert(out@.map_values(|e: EntityMention| e@) =~= prev.map_values(|e: EntityMention| e@)
                        + seq![xv]);
                    let m = spec_parse_mentions(all.skip(i + 1));
                    if m is Some {
                        let rest2 = m->0;
                        assert((prev.map_values(|e: EntityMention| e@) + seq![xv]) + rest2
                            =~= prev.map_values(|e: EntityMention| e@) + (seq![xv] + rest2));
                    }
                }
            },
            Option::None => {
                return Option::None;
            },
        }
        i += 1;
    }
    proof {
        assert(all.skip(items@.len() as int) =~= Seq::<JsonVal>::empty());
        assert(out@.map_values(|e: EntityMention| e@) + Seq::<EntityMentionView>::empty() =~= out@.map_values(
            |e: EntityMention| e@,
        ));
    }
    Option::Some(out)
}

pub fn opt_mentions_field(fields: &Vec<(String, Json)>, key: &str) -> (r: Option<
    Option<Vec<EntityMention>>,
>)
    ensures
        match r {
            Option::Some(Option::Some(v)) => spec_opt_mentions(obj_view(fields@), key@)
                == Option::Some(Option::Some(v@.map_values(|e: EntityMention| e@))),
            Option::Some(Option::None) => spec_opt_mentions(obj_view(fields@), key@)
                == Option::Some(Option::None::<Seq<EntityMentionView>>),
            Option::None => spec_opt_mentions(obj_view(fields@), key@) is None,
        },
{
    match obj_lookup(fields, key) {
        Option::None => Option::Some(Option::None),
        Option::Some(Json::Null) => Option::Some(Option::None),
        Option::Some(Json::Arr(items)) => match parse_mentions(items) {
            Option::Some(v) => Option::Some(Option::Some(v)),
            Option::None => Option::None,
        },
        Option::Some(_) => Option::None,
    }
}


pub open spec fn spec_parse_annotations(items: Seq<JsonVal>) -> Option<Seq<EntityAnnotationView>>
    decreases items,
{
    if items.len() == 0 {
        Option::Some(Seq::empty())
    } else {
        match (spec_parse_annotation(items[0]), spec_parse_annotations(items.drop_first())) {
            (Option::Some(x), Option::Some(rest)) => Option::Some(seq![x] + rest),
            _ => Option::None,
        }
    }
}

pub open spec fn spec_opt_annotations(fields: Seq<(Seq<char>, JsonVal)>, key: Seq<char>) -> Option<
    Option<Seq<EntityAnnotationView>>,
> {
    match obj_get(fields, key) {
        Option::None => Option::Some(Option::None),
        Option::Some(JsonVal::Null) => Option::Some(Option::None),
        Option::Some(JsonVal::Arr(items)) => match spec_parse_annotations(items) {
            Option::Some(s) => Option::Some(Option::Some(s)),
            Option::None => Option::None,
        },
        Option::Some(_) => Option::None,
    }
}

pub fn parse_annotations(items: &Vec<Json>) -> (r: Option<Vec<EntityAnnotation>>)
    ensures
        match r {
            Option::Some(v) => spec_parse_annotations(arr_view(items@)) == Option::Some(
                v@.map_values(|e: EntityAnnotation| e@),
            ),
            Option::None => spec_parse_annotations(arr_view(items@)) is None,
        },
{
    let ghost all = arr_view(items@);
    proof {
        lemma_arr_view_len(items@);
        assert(all.skip(0int) =~= all);
    }
    let mut out: Vec<EntityAnnotation> = Vec::new();
    let mut i: usize = 0;
    while i < items.len()
        invariant
            i <= items@.len(),
            all == arr_view(items@),
            all.len() == items@.len(),
            out@.len() == i,
            spec_parse_annotations(all) == (match spec_parse_annotations(all.skip(i as int)) {
                Option::Some(rest) => Option::Some(out@.map_values(|e: EntityAnnotation| e@) + rest),
                Option::None => Option::None::<Seq<EntityAnnotationView>>,
            }),
        decreases items@.len() - i,
    {
        proof {
            lemma_arr_view_index(items@, i as int);
            assert(all.skip(i as int)[0] == all[i as int]);
            assert(all.skip(i as int).drop_first() =~= all.skip(i + 1));
        }
        match parse_annotation(&items[i]) {
            Option::Some(x) => {
                let ghost prev = out@;
                let ghost xv = x@;
                out.push(x);
                proof {
                    assert(out@.map_values(|e: EntityAnnotation| e@) =~= prev.map_values(|e: EntityAnnotation| e@)
                        + seq![xv]);
                    let m = spec_parse_annotations(all.skip(i + 1));
                    if m is Some {
                        let rest2 = m->0;
                        assert((prev.map_values(|e: EntityAnnotation| e@) + seq![xv]) + rest2
                            =~= prev.map_values(|e: EntityAnnotation| e@) + (seq![xv] + rest2));
                    }
                }
            },
            Option::None => {
                return Option::None;
            },
        }
        i += 1;
    }
    proof {
        assert(all.skip(items@.len() as int) =~= Seq::<JsonVal>::empty());
        assert(out@.map_values(|e: EntityAnnotation| e@) + Seq::<EntityAnnotationView>::empty() =~= out@.map_values(
            |e: EntityAnnotation| e@,
        ));
    }
    Option::Some(out)
}

pub fn opt_annotations_field(fields: &Vec<(String, Json)>, key: &str) -> (r: Option<
    Option<Vec<EntityAnnotation>>,
>)
    ensures
        match r {
            Option::Some(Option::Some(v)) => spec_opt_annotations(obj_view(fields@), key@)
                == Option::Some(Option::Some(v@.map_values(|e: EntityAnnotation| e@))),
            Option::Some(Option::None) => spec_opt_annotations(obj_view(fields@), key@)
                == Option::Some(Option::None::<Seq<EntityAnnotationView>>),
            Option::None => spec_opt_annotations(obj_view(fields@), key@) is None,
        },
{
    match obj_lookup(fields, key) {
        Option::None => Option::Some(Option::None),
        Option::Some(Json::Null) => Option::Some(Option::None),
        Option::Some(Json::Arr(items)) => match parse_annotations(items) {
            Option::Some(v) => Option::Some(Option::Some(v)),
            Option::None => Option::None,
        },
        Option::Some(_) => Option::None,
    }
}


pub open spec fn spec_parse_urls(items: Seq<JsonVal>) -> Option<Seq<EntityUrlView>>
    decreases items,
{
    if items.len() == 0 {
        Option::Some(Seq::empty())
    } else {
        match (spec_parse_url(items[0]), spec_parse_urls(items.drop_first())) {
            (Option::Some(x), Option::Some(rest)) => Option::Some(seq![x] + rest),
            _ => Option::None,
        }
    }
}

pub open spec fn spec_opt_urls(fields: Seq<(Seq<char>, JsonVal)>, key: Seq<char>) -> Option<
    Option<Seq<EntityUrlView>>,
> {
    match obj_get(fields, key) {
        Option::None => Option::Some(Option::None),
        Option::Some(JsonVal::Null) => Option::Some(Option::None),
        Option::Some(JsonVal::Arr(items)) => match spec_parse_urls(items) {
            Option::Some(s) => Option::Some(Option::Some(s)),
            Option::None => Option::None,
        },
        Option::Some(_) => Option::None,
    }
}

pub fn parse_urls(items: &Vec<Json>) -> (r: Option<Vec<EntityUrl>>)
    ensures
        match r {
            Option::Some(v) => spec_parse_urls(arr_view(items@)) == Option::Some(
                v@.map_values(|e: EntityUrl| e@),
            ),
            Option::None => spec_parse_urls(arr_view(items@)) is None,
        },
{
    let ghost all = arr_view(items@);
    proof {
        lemma_arr_view_len(items@);
        assert(all.skip(0int) =~= all);
    }
    let mut out: Vec<EntityUrl> = Vec::new();
    let mut i: usize = 0;
    while i < items.len()
        invariant
            i <= items@.len(),
            all == arr_view(items@),
            all.len() == items@.len(),
            out@.len() == i,
            spec_parse_urls(all) == (match spec_parse_urls(all.skip(i as int)) {
                Option::Some(rest) => Option::Some(out@.map_values(|e: EntityUrl| e@) + rest),
                Option::None => Option::None::<Seq<EntityUrlView>>,
            }),
        decreases items@.len() - i,
    {
        proof {
            lemma_arr_view_index(items@, i as int);
            assert(all.skip(i as int)[0] == all[i as int]);
            assert(all.skip(i as int).drop_first() =~= all.skip(i + 1));
        }
        match parse_url(&items[i]) {
            Option::Some(x) => {
                let ghost prev = out@;
                let ghost xv = x@;
                out.push(x);
                proof {
                    assert(out@.map_values(|e: EntityUrl| e@) =~= prev.map_values(|e: EntityUrl| e@)
                        + seq![xv]);
                    let m = spec_parse_urls(all.skip(i + 1));
                    if m is Some {
                        let rest2 = m->0;
                        assert((prev.map_values(|e: EntityUrl| e@) + seq![xv]) + rest2
                            =~= prev.map_values(|e: EntityUrl| e@) + (seq![xv] + rest2));
                    }
                }
            },
            Option::None => {
                return Option::None;
            },
        }
        i += 1;
    }
    proof {
        assert(all.skip(items@.len() as int) =~= Seq::<JsonVal>::empty());
        assert(out@.map_values(|e: EntityUrl| e@) + Seq::<EntityUrlView>::empty() =~= out@.map_values(
            |e: EntityUrl| e@,
        ));
    }
    Option::Some(out)
}

pub fn opt_urls_field(fields: &Vec<(String, Json)>, key: &str) -> (r: Option<
    Option<Vec<EntityUrl>>,
>)
    ensures
        match r {
            Option::Some(Option::Some(v)) => spec_opt_urls(obj_view(fields@), key@)
                == Option::Some(Option::Some(v@.map_values(|e: EntityUrl| e@))),
            Option::Some(Option::None) => spec_opt_urls(obj_view(fields@), key@)
                == Option::Some(Option::None::<Seq<EntityUrlView>>),
            Option::None => spec_opt_urls(obj_view(fields@), key@) is None,
        },
{
    match obj_lookup(fields, key) {
        Option::None => Option::Some(Option::None),
        Option::Some(Json::Null) => Option::Some(Option::None),
        Option::Some(Json::Arr(items)) => match parse_urls(items) {
            Option::Some(v) => Option::Some(Option::Some(v)),
            Option::None => Option::None,
        },
        Option::Some(_) => Option::None,
    }
}


/// One rule-match entry.
pub open spec fn spec_parse_rule_match(v: JsonVal) -> Option<RuleMatchView> {
    match v {
        JsonVal::Obj(fields) => match (
            spec_get_usize(fields, "id"@),
            spec_get_string(fields, "tag"@),
        ) {
            (Option::Some(id), Option::Some(tag)) => Option::Some(RuleMatchView { id, tag }),
            _ => Option::None,
        },
        _ => Option::None,
    }
}

pub fn parse_rule_match(j: &Json) -> (r: Option<RuleMatch>)
    ensures
        match r {
            Option::Some(x) => spec_parse_rule_match(j@) == Option::Some(x@),
            Option::None => spec_parse_rule_match(j@) is None,
        },
{
    match j {
        Json::Obj(fields) => match (
            get_usize_field(fields, "id"),
            get_string_field(fields, "tag"),
        ) {
            (Option::Some(id), Option::Some(tag)) => Option::Some(RuleMatch { id, tag }),
            _ => Option::None,
        },
        _ => Option::None,
    }
}

/// One preview image.
pub open spec fn spec_parse_image(v: JsonVal) -> Option<UrlImageView> {
    match v {
        JsonVal::Obj(fields) => match (
            spec_get_string(fields, "url"@),
            spec_get_usize(fields, "width"@),
            spec_get_usize(fields, "height"@),
        ) {
            (Option::Some(url), Option::Some(width), Option::Some(height)) => Option::Some(
                UrlImageView { url, width, height },
            ),
            _ => Option::None,
        },
        _ => Option::None,
    }
}

pub fn parse_image(j: &Json) -> (r: Option<UrlImage>)
    ensures
        match r {
            Option::Some(x) => spec_parse_image(j@) == Option::Some(x@),
            Option::None => spec_parse_image(j@) is None,
        },
{
    match j {
        Json::Obj(fields) => match (
            get_string_field(fields, "url"),
            get_usize_field(fields, "width"),
            get_usize_field(fields, "height"),
        ) {
            (Option::Some(url), Option::Some(width), Option::Some(height)) => Option::Some(
                UrlImage { url, width, height },
            ),
            _ => Option::None,
        },
        _ => Option::None,
    }
}

/// One hashtag or cashtag.
pub open spec fn spec_parse_tag(v: JsonVal) -> Option<EntityTagView> {
    match v {
        JsonVal::Obj(fields) => match (
            spec_get_usize(fields, "start"@),
            spec_get_usize(fields, "end"@),
            spec_get_string(fields, "tag"@),
        ) {
            (Option::Some(start), Option::Some(end), Option::Some(tag)) => Option::Some(
                EntityTagView { start, end, tag },
            ),
            _ => Option::None,
        },
        _ => Option::None,
    }
}

pub fn parse_tag(j: &Json) -> (r: Option<EntityTag>)
    ensures
        match r {
            Option::Some(x) => spec_parse_tag(j@) == Option::Some(x@),
            Option::None => spec_parse_tag(j@) is None,
        },
{
    match j {
        Json::Obj(fields) => match (
            get_usize_field(fields, "start"),
            get_usize_field(fields, "end"),
            get_string_field(fields, "tag"),
        ) {
            (Option::Some(start), Option::Some(end), Option::Some(tag)) => Option::Some(
                EntityTag { start, end, tag },
            ),
            _ => Option::None,
        },
        _ => Option::None,
    }
}

/// One mention.
pub open spec fn spec_parse_mention(v: JsonVal) -> Option<EntityMentionView> {
    match v {
        JsonVal::Obj(fields) => match (
            spec_get_usize(fields, "start"@),
            spec_get_usize(fields, "end"@),
            spec_get_string(fields, "username"@),
        ) {
            (Option::Some(start), Option::Some(end), Option::Some(username)) => Option::Some(
                EntityMentionView { start, end, username },
            ),
            _ => Option::None,
        },
        _ => Option::None,
    }
}

pub fn parse_mention(j: &Json) -> (r: Option<EntityMention>)
    ensures
        match r {
            Option::Some(x) => spec_parse_mention(j@) == Option::Some(x@),
            Option::None => spec_parse_mention(j@) is None,
        },
{
    match j {
        Json::Obj(fields) => match (
            get_usize_field(fields, "start"),
            get_usize_field(fields, "end"),
            get_string_field(fields, "username"),
        ) {
            (Option::Some(start), Option::Some(end), Option::Some(username)) => Option::Some(
                EntityMention { start, end, username },
            ),
            _ => Option::None,
        },
        _ => Option::None,
    }
}

/// One annotation; its confidence is kept as the number's text.
pub open spec fn spec_parse_annotation(v: JsonVal) -> Option<EntityAnnotationView> {
    match v {
        JsonVal::Obj(fields) => match (
            spec_get_usize(fields, "start"@),
            spec_get_usize(fields, "end"@),
            spec_get_number_text(fields, "probability"@),
            spec_get_string(fields, "type"@),
            spec_get_string(fields, "normalized_text"@),
        ) {
            (
                Option::Some(start),
                Option::Some(end),
                Option::Some(probability),
                Option::Some(annotation_type),
                Option::Some(normalized_text),
            ) => Option::Some(
                EntityAnnotationView { start, end, probability, annotation_type, normalized_text },
            ),
            _ => Option::None,
        },
        _ => Option::None,
    }
}

pub fn parse_annotation(j: &Json) -> (r: Option<EntityAnnotation>)
    ensures
        match r {
            Option::Some(x) => spec_parse_annotation(j@) == Option::Some(x@),
            Option::None => spec_parse_annotation(j@) is None,
        },
{
    match j {
        Json::Obj(fields) => match (
            get_usize_field(fields, "start"),
            get_usize_field(fields, "end"),
            get_number_text_field(fields, "probability"),
            get_string_field(fields, "type"),
            get_string_field(fields, "normalized_text"),
        ) {
            (
                Option::Some(start),
                Option::Some(end),
                Option::Some(probability),
                Option::Some(annotation_type),
                Option::Some(normalized_text),
            ) => Option::Some(
                EntityAnnotation { start, end, probability, annotation_type, normalized_text },
            ),
            _ => Option::None,
        },
        _ => Option::None,
    }
}

/// One URL entity.
pub open spec fn spec_parse_url(v: JsonVal) -> Option<EntityUrlView> {
    match v {
        JsonVal::Obj(fields) => match (
            spec_get_usize(fields, "start"@),
            spec_get_usize(fields, "end"@),
            spec_get_string(fields, "url"@),
            spec_get_string(fields, "expanded_url"@),
            spec_get_string(fields, "display_url"@),
            spec_opt_string(fields, "unwound_url"@),
            spec_opt_images(fields, "images"@),
            spec_opt_usize(fields, "status"@),
            spec_opt_string(fields, "title"@),
            spec_opt_string(fields, "description"@),
        ) {
            (
                Option::Some(start),
                Option::Some(end),
                Option::Some(url),
                Option::Some(expanded_url),
                Option::Some(display_url),
                Option::Some(unwound_url),
                Option::Some(images),
                Option::Some(status),
                Option::Some(title),
                Option::Some(description),
            ) => Option::Some(
                EntityUrlView {
                    start,
                    end,
                    url,
                    expanded_url,
                    display_url,
                    unwound_url,
                    images,
                    status,
                    title,
                    description,
                },
            ),
            _ => Option::None,
        },
        _ => Option::None,
    }
}

pub fn parse_url(j: &Json) -> (r: Option<EntityUrl>)
    ensures
        match r {
            Option::Some(x) => spec_parse_url(j@) == Option::Some(x@),
            Option::None => spec_parse_url(j@) is None,
        },
{
    match j {
        Json::Obj(fields) => {
            let start = match get_usize_field(fields, "start") {
                Option::Some(v) => v,
                Option::None => {
                    return Option::None;
                },
            };
            let end = match get_usize_field(fields, "end") {
                Option::Some(v) => v,
                Option::None => {
                    return Option::None;
                },
            };
            let url = match get_string_field(fields, "url") {
                Option::Some(v) => v,
                Option::None => {
                    return Option::None;
                },
            };
            let expanded_url = match get_string_field(fields, "expanded_url") {
                Option::Some(v) => v,
                Option::None => {
                    return Option::None;
                },
            };
            let display_url = match get_string_field(fields, "display_url") {
                Option::Some(v) => v,
                Option::None => {
                    return Option::None;
                },
            };
            let unwound_url = match opt_string_field(fields, "unwound_url") {
                Option::Some(v) => v,
                Option::None => {
                    return Option::None;
                },
            };
            let images = match opt_images_field(fields, "images") {
                Option::Some(v) => v,
                Option::None => {
                    return Option::None;
                },
            };
            let status = match opt_usize_field(fields, "status") {
                Option::Some(v) => v,
                Option::None => {
                    return Option::None;
                },
            };
            let title = match opt_string_field(fields, "title") {
                Option::Some(v) => v,
                Option::None => {
                    return Option::None;
                },
            };
            let description = match opt_string_field(fields, "description") {
                Option::Some(v) => v,
                Option::None => {
                    return Option::None;
                },
            };
            Option::Some(
                EntityUrl {
                    start,
                    end,
                    url,
                    expanded_url,
                    display_url,
                    unwound_url,
                    images,
                    status,
                    title,
                    description,
                },
            )
        },
        _ => Option::None,
    }
}


/// The entity annotations of a tweet.
pub open spec fn spec_parse_entities(v: JsonVal) -> Option<EntitiesView> {
    match v {
        JsonVal::Obj(fields) => match (
            spec_opt_annotations(fields, "annotations"@),
            spec_opt_urls(fields, "urls"@),
            spec_opt_tags(fields, "hashtags"@),
            spec_opt_mentions(fields, "mentions"@),
            spec_opt_tags(fields, "cashtags"@),
        ) {
            (
                Option::Some(annotations),
                Option::Some(urls),
                Option::Some(hashtags),
                Option::Some(mentions),
                Option::Some(cashtags),
            ) => Option::Some(EntitiesView { annotations, urls, hashtags, mentions, cashtags }),
            _ => Option::None,
        },
        _ => Option::None,
    }
}

pub open spec fn spec_opt_entities(fields: Seq<(Seq<char>, JsonVal)>, key: Seq<char>) -> Option<
    Option<EntitiesView>,
> {
    match obj_get(fields, key) {
        Option::None => Option::Some(Option::None),
        Option::Some(JsonVal::Null) => Option::Some(Option::None),
        Option::Some(v) => match spec_parse_entities(v) {
            Option::Some(e) => Option::Some(Option::Some(e)),
            Option::None => Option::None,
        },
    }
}

pub fn parse_entities(j: &Json) -> (r: Option<Entities>)
    ensures
        match r {
            Option::Some(x) => spec_parse_entities(j@) == Option::Some(x@),
            Option::None => spec_parse_entities(j@) is None,
        },
{
    match j {
        Json::Obj(fields) => {
            let annotations = match opt_annotations_field(fields, "annotations") {
                Option::Some(v) => v,
                Option::None => {
                    return Option::None;
                },
            };
            let urls = match opt_urls_field(fields, "urls") {
                Option::Some(v) => v,
                Option::None => {
                    return Option::None;
                },
            };
            let hashtags = match opt_tags_field(fields, "hashtags") {
                Option::Some(v) => v,
                Option::None => {
                    return Option::None;
                },
            };
            let mentions = match opt_mentions_field(fields, "mentions") {
                Option::Some(v) => v,
                Option::None => {
                    return Option::None;
                },
            };
            let cashtags = match opt_tags_field(fields, "cashtags") {
                Option::Some(v) => v,
                Option::None => {
                    return Option::None;
                },
            };
            Option::Some(Entities { annotations, urls, hashtags, mentions, cashtags })
        },
        _ => Option::None,
    }
}

pub fn opt_entities_field(fields: &Vec<(String, Json)>, key: &str) -> (r: Option<Option<Entities>>)
    ensures
        match r {
            Option::Some(Option::Some(e)) => spec_opt_entities(obj_view(fields@), key@)
                == Option::Some(Option::Some(e@)),
            Option::Some(Option::None) => spec_opt_entities(obj_view(fields@), key@)
                == Option::Some(Option::None::<EntitiesView>),
            Option::None => spec_opt_entities(obj_view(fields@), key@) is None,
        },
{
    match obj_lookup(fields, key) {
        Option::None => Option::Some(Option::None),
        Option::Some(Json::Null) => Option::Some(Option::None),
        Option::Some(v) => match parse_entities(v) {
            Option::Some(e) => Option::Some(Option::Some(e)),
            Option::None => Option::None,
        },
    }
}

/// The engagement counters.
pub open spec fn spec_parse_metrics(v: JsonVal) -> Option<PublicMetrics> {
    match v {
        JsonVal::Obj(fields) => match (
            spec_get_usize(fields, "retweet_count"@),
            spec_get_usize(fields, "reply_count"@),
            spec_get_usize(fields, "like_count"@),
            spec_get_usize(fields, "quote_count"@),
        ) {
            (
                Option::Some(retweet_count),
                Option::Some(reply_count),
                Option::Some(like_count),
                Option::Some(quote_count),
            ) => Option::Some(
                PublicMetrics { retweet_count, reply_count, like_count, quote_count },
            ),
            _ => Option::None,
        },
        _ => Option::None,
    }
}

pub fn parse_metrics(j: &Json) -> (r: Option<PublicMetrics>)
    ensures
        r == spec_parse_metrics(j@),
{
    match j {
        Json::Obj(fields) => match (
            get_usize_field(fields, "retweet_count"),
            get_usize_field(fields, "reply_count"),
            get_usize_field(fields, "like_count"),
            get_usize_field(fields, "quote_count"),
        ) {
            (
                Option::Some(retweet_count),
                Option::Some(reply_count),
                Option::Some(like_count),
                Option::Some(quote_count),
            ) => Option::Some(
                PublicMetrics { retweet_count, reply_count, like_count, quote_count },
            ),
            _ => Option::None,
        },
        _ => Option::None,
    }
}

/// The tweet body of one event.
pub open spec fn spec_parse_data(v: JsonVal) -> Option<StreamResponseDataView> {
    match v {
        JsonVal::Obj(fields) => match (
            spec_get_string(fields, "id"@),
            spec_get_string(fields, "text"@),
            spec_get_string(fields, "created_at"@),
            spec_get_string(fields, "conversation_id"@),
            spec_opt_string(fields, "author_id"@),
            spec_opt_refs(fields, "referenced_tweets"@),
            match obj_get(fields, "public_metrics"@) {
                Option::Some(m) => spec_parse_metrics(m),
                Option::None => Option::None,
            },
            spec_opt_entities(fields, "entities"@),
        ) {
            (
                Option::Some(id),
                Option::Some(text),
                Option::Some(created_at),
                Option::Some(conversation_id),
                Option::Some(author_id),
                Option::Some(referenced_tweets),
                Option::Some(public_metrics),
                Option::Some(entities),
            ) => Option::Some(
                StreamResponseDataView {
                    id,
                    text,
                    created_at,
                    conversation_id,
                    author_id,
                    referenced_tweets,
                    public_metrics,
                    entities,
                },
            ),
            _ => Option::None,
        },
        _ => Option::None,
    }
}

pub fn parse_data(j: &Json) -> (r: Option<StreamResponseData>)
    ensures
        match r {
            Option::Some(x) => spec_parse_data(j@) == Option::Some(x@),
            Option::None => spec_parse_data(j@) is None,
        },
{
    match j {
        Json::Obj(fields) => {
            let id = match get_string_field(fields, "id") {
                Option::Some(v) => v,
                Option::None => {
                    return Option::None;
                },
            };
            let text = match get_string_field(fields, "text") {
                Option::Some(v) => v,
                Option::None => {
                    return Option::None;
                },
            };
            let created_at = match get_string_field(fields, "created_at") {
                Option::Some(v) => v,
                Option::None => {
                    return Option::None;
                },
            };
            let conversation_id = match get_string_field(fields, "conversation_id") {
                Option::Some(v) => v,
                Option::None => {
                    return Option::None;
                },
            };
            let author_id = match opt_string_field(fields, "author_id") {
                Option::Some(v) => v,
                Option::None => {
                    return Option::None;
                },
            };
            let referenced_tweets = match opt_refs_field(fields, "referenced_tweets") {
                Option::Some(v) => v,
                Option::None => {
                    return Option::None;
                },
            };
            let public_metrics = match obj_lookup(fields, "public_metrics") {
                Option::Some(m) => match parse_metrics(m) {
                    Option::Some(pm) => pm,
                    Option::None => {
                        return Option::None;
                    },
                },
                Option::None => {
                    return Option::None;
                },
            };
            let entities = match opt_entities_field(fields, "entities") {
                Option::Some(v) => v,
                Option::None => {
                    return Option::None;
                },
            };
            Option::Some(
                StreamResponseData {
                    id,
                    text,
                    created_at,
                    conversation_id,
                    author_id,
                    referenced_tweets,
                    public_metrics,
                    entities,
                },
            )
        },
        _ => Option::None,
    }
}

/// One whole event: a document matches the schema exactly when this
/// function yields a value.
pub open spec fn spec_parse_response(v: JsonVal) -> Option<StreamResponseView> {
    match v {
        JsonVal::Obj(fields) => match (
            match obj_get(fields, "data"@) {
                Option::Some(d) => spec_parse_data(d),
                Option::None => Option::None,
            },
            spec_opt_rule_matches(fields, "matching_rules"@),
        ) {
            (Option::Some(data), Option::Some(matching_rules)) => Option::Some(
                StreamResponseView { data, matching_rules },
            ),
            _ => Option::None,
        },
        _ => Option::None,
    }
}

pub fn parse_response(j: &Json) -> (r: Option<StreamResponse>)
    ensures
        match r {
            Option::Some(x) => spec_parse_response(j@) == Option::Some(x@),
            Option::None => spec_parse_response(j@) is None,
        },
{
    match j {
        Json::Obj(fields) => {
            let data = match obj_lookup(fields, "data") {
                Option::Some(d) => match parse_data(d) {
                    Option::Some(x) => x,
                    Option::None => {
                        return Option::None;
                    },
                },
                Option::None => {
                    return Option::None;
                },
            };
            let matching_rules = match opt_rule_matches_field(fields, "matching_rules") {
                Option::Some(v) => v,
                Option::None => {
                    return Option::None;
                },
            };
            Option::Some(StreamResponse { data, matching_rules })
        },
        _ => Option::None,
    }
}

} // verus!
