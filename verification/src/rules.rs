//! Filter-rule bookkeeping.
//!
//! The rule endpoints are plain request/response calls. The library builds
//! the request payloads, parses the response documents, and decides what a
//! response means; the HTTP itself happens outside.

use vstd::prelude::*;

use crate::json::Json;
use crate::json::JsonVal;
use crate::json::arr_view;
use crate::json::chars_to_string;
use crate::json::dec_digits;
use crate::json::emit_json;
use crate::json::escape_str;
use crate::json::json_to_string;
use crate::json::json_view;
use crate::json::lemma_arr_view_index;
use crate::json::lemma_arr_view_len;
use crate::json::lemma_obj_view_index;
use crate::json::lemma_obj_view_len;
use crate::json::obj_get;
use crate::json::obj_lookup;
use crate::json::obj_view;
use crate::json::push_str_chars;
use crate::json::push_u64_digits;
use crate::json::push_escaped;
use crate::parse::get_string_field;
use crate::parse::opt_string_field;
use crate::parse::spec_get_string;
use crate::parse::spec_opt_string;

verus! {

broadcast use
    vstd::seq::group_seq_axioms,
    vstd::std_specs::vec::group_vec_axioms,
    lemma_arr_view_len,
    lemma_arr_view_index,
    lemma_obj_view_len,
    lemma_obj_view_index;

/// One filter rule of the stream.
#[derive(Debug, PartialEq)]
pub struct Rule {
    pub id: String,
    pub value: Option<String>,
    pub tag: Option<String>,
}

pub ghost struct RuleView {
    pub id: Seq<char>,
    pub value: Option<Seq<char>>,
    pub tag: Option<Seq<char>>,
}

impl View for Rule {
    type V = RuleView;

    open spec fn view(&self) -> RuleView {
        RuleView {
            id: self.id@,
            value: crate::event::view_opt_string(self.value),
            tag: crate::event::view_opt_string(self.tag),
        }
    }
}

/// The outcome counters a rule response reports.
#[derive(Debug, PartialEq)]
pub struct ResponseRuleMeta {
    pub summary: Vec<(String, usize)>,
}

pub ghost struct ResponseRuleMetaView {
    pub summary: Seq<(Seq<char>, usize)>,
}

impl View for ResponseRuleMeta {
    type V = ResponseRuleMetaView;

    open spec fn view(&self) -> ResponseRuleMetaView {
        ResponseRuleMetaView {
            summary: self.summary@.map_values(|p: (String, usize)| (p.0@, p.1)),
        }
    }
}

/// One reported error of a create-rule call.
#[derive(Debug, PartialEq)]
pub struct CreateRuleError {
    pub value: String,
    pub details: Vec<String>,
    pub title: String,
    pub error_type: String,
}

pub ghost struct CreateRuleErrorView {
    pub value: Seq<char>,
    pub details: Seq<Seq<char>>,
    pub title: Seq<char>,
    pub error_type: Seq<char>,
}

impl View for CreateRuleError {
    type V = CreateRuleErrorView;

    open spec fn view(&self) -> CreateRuleErrorView {
        CreateRuleErrorView {
            value: self.value@,
            details: self.details@.map_values(|s: String| s@),
            title: self.title@,
            error_type: self.error_type@,
        }
    }
}

/// The response of a create-rule call.
#[derive(Debug, PartialEq)]
pub struct CreateRuleResponse {
    pub data: Option<Vec<Rule>>,
    pub errors: Option<Vec<CreateRuleError>>,
    pub meta: ResponseRuleMeta,
}

pub ghost struct CreateRuleResponseView {
    pub data: Option<Seq<RuleView>>,
    pub errors: Option<Seq<CreateRuleErrorView>>,
    pub meta: ResponseRuleMetaView,
}

impl View for CreateRuleResponse {
    type V = CreateRuleResponseView;

    open spec fn view(&self) -> CreateRuleResponseView {
        CreateRuleResponseView {
            data: crate::event::view_opt_list(self.data),
            errors: crate::event::view_opt_list(self.errors),
            meta: self.meta@,
        }
    }
}

/// The response of a delete-rule call.
#[derive(Debug, PartialEq)]
pub struct DeleteRuleResponse {
    pub meta: ResponseRuleMeta,
}

impl View for DeleteRuleResponse {
    type V = ResponseRuleMetaView;

    open spec fn view(&self) -> ResponseRuleMetaView {
        self.meta@
    }
}

/// The response of a list-rules call.
#[derive(Debug, PartialEq)]
pub struct ListRulesResponse {
    pub data: Option<Vec<Rule>>,
}

pub ghost struct ListRulesResponseView {
    pub data: Option<Seq<RuleView>>,
}

impl View for ListRulesResponse {
    type V = ListRulesResponseView;

    open spec fn view(&self) -> ListRulesResponseView {
        ListRulesResponseView { data: crate::event::view_opt_list(self.data) }
    }
}

/// One rule, from its document.
pub open spec fn spec_parse_rule(v: JsonVal) -> Option<RuleView> {
    match v {
        JsonVal::Obj(fields) => match (
            spec_get_string(fields, "id"@),
            spec_opt_string(fields, "value"@),
            spec_opt_string(fields, "tag"@),
        ) {
            (Option::Some(id), Option::Some(value), Option::Some(tag)) => Option::Some(
                RuleView { id, value, tag },
            ),
            _ => Option::None,
        },
        _ => Option::None,
    }
}

pub open spec fn spec_parse_rules(items: Seq<JsonVal>) -> Option<Seq<RuleView>>
    decreases items,
{
    if items.len() == 0 {
        Option::Some(Seq::empty())
    } else {
        match (spec_parse_rule(items[0]), spec_parse_rules(items.drop_first())) {
            (Option::Some(x), Option::Some(rest)) => Option::Some(seq![x] + rest),
            _ => Option::None,
        }
    }
}

pub open spec fn spec_opt_rules(fields: Seq<(Seq<char>, JsonVal)>, key: Seq<char>) -> Option<
    Option<Seq<RuleView>>,
> {
    match obj_get(fields, key) {
        Option::None => Option::Some(Option::None),
        Option::Some(JsonVal::Null) => Option::Some(Option::None),
        Option::Some(JsonVal::Arr(items)) => match spec_parse_rules(items) {
            Option::Some(s) => Option::Some(Option::Some(s)),
            Option::None => Option::None,
        },
        Option::Some(_) => Option::None,
    }
}

pub fn parse_rule(j: &Json) -> (r: Option<Rule>)
    ensures
        match r {
            Option::Some(x) => spec_parse_rule(j@) == Option::Some(x@),
            Option::None => spec_parse_rule(j@) is None,
        },
{
    match j {
        Json::Obj(fields) => match (
            get_string_field(fields, "id"),
            opt_string_field(fields, "value"),
            opt_string_field(fields, "tag"),
        ) {
            (Option::Some(id), Option::Some(value), Option::Some(tag)) => Option::Some(
                Rule { id, value, tag },
            ),
            _ => Option::None,
        },
        _ => Option::None,
    }
}

pub fn parse_rules(items: &Vec<Json>) -> (r: Option<Vec<Rule>>)
    ensures
        match r {
            Option::Some(v) => spec_parse_rules(arr_view(items@)) == Option::Some(
                v@.map_values(|e: Rule| e@),
            ),
            Option::None => spec_parse_rules(arr_view(items@)) is None,
        },
{
    let ghost all = arr_view(items@);
    proof {
        lemma_arr_view_len(items@);
        assert(all.skip(0int) =~= all);
    }
    let mut out: Vec<Rule> = Vec::new();
    let mut i: usize = 0;
    while i < items.len()
        invariant
            i <= items@.len(),
            all == arr_view(items@),
            all.len() == items@.len(),
            out@.len() == i,
            spec_parse_rules(all) == (match spec_parse_rules(all.skip(i as int)) {
                Option::Some(rest) => Option::Some(out@.map_values(|e: Rule| e@) + rest),
                Option::None => Option::None::<Seq<RuleView>>,
            }),
        decreases items@.len() - i,
    {
        proof {
            lemma_arr_view_index(items@, i as int);
            assert(all.skip(i as int)[0] == all[i as int]);
            assert(all.skip(i as int).drop_first() =~= all.skip(i + 1));
        }
        match parse_rule(&items[i]) {
            Option::Some(x) => {
                let ghost prev = out@;
                let ghost xv = x@;
                out.push(x);
                proof {
                    assert(out@.map_values(|e: Rule| e@) =~= prev.map_values(|e: Rule| e@)
                        + seq![xv]);
                    let m = spec_parse_rules(all.skip(i + 1));
                    if m is Some {
                        let rest2 = m->0;
                        assert((prev.map_values(|e: Rule| e@) + seq![xv]) + rest2
                            =~= prev.map_values(|e: Rule| e@) + (seq![xv] + rest2));
                    }
                }
            },
            Option::None => {
                return Option::None;
            },
        }
        i += 1;
    }
    proof {
        assert(all.skip(items@.len() as int) =~= Seq::<JsonVal>::empty());
        assert(out@.map_values(|e: Rule| e@) + Seq::<RuleView>::empty() =~= out@.map_values(
            |e: Rule| e@,
        ));
    }
    Option::Some(out)
}

pub fn opt_rules_field(fields: &Vec<(String, Json)>, key: &str) -> (r: Option<Option<Vec<Rule>>>)
    ensures
        match r {
            Option::Some(Option::Some(v)) => spec_opt_rules(obj_view(fields@), key@)
                == Option::Some(Option::Some(v@.map_values(|e: Rule| e@))),
            Option::Some(Option::None) => spec_opt_rules(obj_view(fields@), key@) == Option::Some(
                Option::None::<Seq<RuleView>>,
            ),
            Option::None => spec_opt_rules(obj_view(fields@), key@) is None,
        },
{
    match obj_lookup(fields, key) {
        Option::None => Option::Some(Option::None),
        Option::Some(Json::Null) => Option::Some(Option::None),
        Option::Some(Json::Arr(items)) => match parse_rules(items) {
            Option::Some(v) => Option::Some(Option::Some(v)),
            Option::None => Option::None,
        },
        Option::Some(_) => Option::None,
    }
}

/// The whole list-rules response, from its document.
pub open spec fn spec_parse_list_rules(v: JsonVal) -> Option<ListRulesResponseView> {
    match v {
        JsonVal::Obj(fields) => match spec_opt_rules(fields, "data"@) {
            Option::Some(data) => Option::Some(ListRulesResponseView { data }),
            Option::None => Option::None,
        },
        _ => Option::None,
    }
}

pub fn list_rules_from_json(j: &Json) -> (r: Option<ListRulesResponse>)
    ensures
        match r {
            Option::Some(x) => spec_parse_list_rules(j@) == Option::Some(x@),
            Option::None => spec_parse_list_rules(j@) is None,
        },
{
    match j {
        Json::Obj(fields) => match opt_rules_field(fields, "data") {
            Option::Some(data) => Option::Some(ListRulesResponse { data }),
            Option::None => Option::None,
        },
        _ => Option::None,
    }
}

/// The counters of a summary object: every field must carry a number.
pub open spec fn spec_parse_counts(fields: Seq<(Seq<char>, JsonVal)>) -> Option<
    Seq<(Seq<char>, usize)>,
>
    decreases fields,
{
    if fields.len() == 0 {
        Option::Some(Seq::empty())
    } else {
        match fields[0].1 {
            JsonVal::UInt(u) => if u <= usize::MAX {
                match spec_parse_counts(fields.drop_first()) {
                    Option::Some(rest) => Option::Some(seq![(fields[0].0, u as usize)] + rest),
                    Option::None => Option::None,
                }
            } else {
                Option::None
            },
            _ => Option::None,
        }
    }
}

pub fn parse_counts(fields: &Vec<(String, Json)>) -> (r: Option<Vec<(String, usize)>>)
    ensures
        match r {
            Option::Some(v) => spec_parse_counts(obj_view(fields@)) == Option::Some(
                v@.map_values(|p: (String, usize)| (p.0@, p.1)),
            ),
            Option::None => spec_parse_counts(obj_view(fields@)) is None,
        },
{
    let ghost all = obj_view(fields@);
    proof {
        lemma_obj_view_len(fields@);
        assert(all.skip(0int) =~= all);
    }
    let mut out: Vec<(String, usize)> = Vec::new();
    let mut i: usize = 0;
    while i < fields.len()
        invariant
            i <= fields@.len(),
            all == obj_view(fields@),
            all.len() == fields@.len(),
            out@.len() == i,
            spec_parse_counts(all) == (match spec_parse_counts(all.skip(i as int)) {
                Option::Some(rest) => Option::Some(
                    out@.map_values(|p: (String, usize)| (p.0@, p.1)) + rest,
                ),
                Option::None => Option::None::<Seq<(Seq<char>, usize)>>,
            }),
        decreases fields@.len() - i,
    {
        proof {
            lemma_obj_view_index(fields@, i as int);
            assert(all.skip(i as int)[0] == all[i as int]);
            assert(all.skip(i as int).drop_first() =~= all.skip(i + 1));
        }
        match &fields[i].1 {
            Json::UInt(u) => {
                if *u <= usize::MAX as u64 {
                    let ghost prev = out@;
                    let key = fields[i].0.clone();
                    let count: usize = *u as usize;
                    out.push((key, count));
                    proof {
                        let f = |p: (String, usize)| (p.0@, p.1);
                        assert(out@.map_values(f) =~= prev.map_values(f) + seq![
                            (fields@[i as int].0@, count),
                        ]);
                        let m = spec_parse_counts(all.skip(i + 1));
                        if m is Some {
                            let rest2 = m->0;
                            assert((prev.map_values(f) + seq![(fields@[i as int].0@, count)])
                                + rest2 =~= prev.map_values(f) + (seq![
                                (fields@[i as int].0@, count),
                            ] + rest2));
                        }
                    }
                } else {
                    return Option::None;
                }
            },
            _ => {
                return Option::None;
            },
        }
        i += 1;
    }
    proof {
        assert(all.skip(fields@.len() as int) =~= Seq::<(Seq<char>, JsonVal)>::empty());
        let f = |p: (String, usize)| (p.0@, p.1);
        assert(out@.map_values(f) + Seq::<(Seq<char>, usize)>::empty() =~= out@.map_values(f));
    }
    Option::Some(out)
}

/// The meta object of a rule response, from its document.
pub open spec fn spec_parse_meta(v: JsonVal) -> Option<ResponseRuleMetaView> {
    match v {
        JsonVal::Obj(fields) => match obj_get(fields, "summary"@) {
            Option::Some(JsonVal::Obj(counts)) => match spec_parse_counts(counts) {
                Option::Some(s) => Option::Some(ResponseRuleMetaView { summary: s }),
                Option::None => Option::None,
            },
            _ => Option::None,
        },
        _ => Option::None,
    }
}

pub fn parse_meta(j: &Json) -> (r: Option<ResponseRuleMeta>)
    ensures
        match r {
            Option::Some(x) => spec_parse_meta(j@) == Option::Some(x@),
            Option::None => spec_parse_meta(j@) is None,
        },
{
    match j {
        Json::Obj(fields) => match obj_lookup(fields, "summary") {
            Option::Some(Json::Obj(counts)) => match parse_counts(counts) {
                Option::Some(summary) => Option::Some(ResponseRuleMeta { summary }),
                Option::None => Option::None,
            },
            _ => Option::None,
        },
        _ => Option::None,
    }
}

/// A list of strings, element by element.
pub open spec fn spec_parse_strings(items: Seq<JsonVal>) -> Option<Seq<Seq<char>>>
    decreases items,
{
    if items.len() == 0 {
        Option::Some(Seq::empty())
    } else {
        match items[0] {
            JsonVal::Str(s) => match spec_parse_strings(items.drop_first()) {
                Option::Some(rest) => Option::Some(seq![s] + rest),
                Option::None => Option::None,
            },
            _ => Option::None,
        }
    }
}

pub fn parse_strings(items: &Vec<Json>) -> (r: Option<Vec<String>>)
    ensures
        match r {
            Option::Some(v) => spec_parse_strings(arr_view(items@)) == Option::Some(
                v@.map_values(|s: String| s@),
            ),
            Option::None => spec_parse_strings(arr_view(items@)) is None,
        },
{
    let ghost all = arr_view(items@);
    proof {
        lemma_arr_view_len(items@);
        assert(all.skip(0int) =~= all);
    }
    let mut out: Vec<String> = Vec::new();
    let mut i: usize = 0;
    while i < items.len()
        invariant
            i <= items@.len(),
            all == arr_view(items@),
            all.len() == items@.len(),
            out@.len() == i,
            spec_parse_strings(all) == (match spec_parse_strings(all.skip(i as int)) {
                Option::Some(rest) => Option::Some(out@.map_values(|s: String| s@) + rest),
                Option::None => Option::None::<Seq<Seq<char>>>,
            }),
        decreases items@.len() - i,
    {
        proof {
            lemma_arr_view_index(items@, i as int);
            assert(all.skip(i as int)[0] == all[i as int]);
            assert(all.skip(i as int).drop_first() =~= all.skip(i + 1));
        }
        match &items[i] {
            Json::Str(s) => {
                let ghost prev = out@;
                let sv = s.clone();
                out.push(sv);
                proof {
                    let f = |s2: String| s2@;
                    assert(out@.map_values(f) =~= prev.map_values(f) + seq![s@]);
                    let m = spec_parse_strings(all.skip(i + 1));
                    if m is Some {
                        let rest2 = m->0;
                        assert((prev.map_values(f) + seq![s@]) + rest2 =~= prev.map_values(f) + (
                        seq![s@] + rest2));
                    }
                }
            },
            _ => {
                return Option::None;
            },
        }
        i += 1;
    }
    proof {
        assert(all.skip(items@.len() as int) =~= Seq::<JsonVal>::empty());
        let f = |s2: String| s2@;
        assert(out@.map_values(f) + Seq::<Seq<char>>::empty() =~= out@.map_values(f));
    }
    Option::Some(out)
}

/// One reported create-rule error, from its document.
pub open spec fn spec_parse_rule_error(v: JsonVal) -> Option<CreateRuleErrorView> {
    match v {
        JsonVal::Obj(fields) => match (
            spec_get_string(fields, "value"@),
            match obj_get(fields, "details"@) {
                Option::Some(JsonVal::Arr(items)) => spec_parse_strings(items),
                _ => Option::None,
            },
            spec_get_string(fields, "title"@),
            spec_get_string(fields, "type"@),
        ) {
            (
                Option::Some(value),
                Option::Some(details),
                Option::Some(title),
                Option::Some(error_type),
            ) => Option::Some(CreateRuleErrorView { value, details, title, error_type }),
            _ => Option::None,
        },
        _ => Option::None,
    }
}

pub fn parse_rule_error(j: &Json) -> (r: Option<CreateRuleError>)
    ensures
        match r {
            Option::Some(x) => spec_parse_rule_error(j@) == Option::Some(x@),
            Option::None => spec_parse_rule_error(j@) is None,
        },
{
    match j {
        Json::Obj(fields) => {
            let value = match get_string_field(fields, "value") {
                Option::Some(v) => v,
                Option::None => {
                    return Option::None;
                },
            };
            let details = match obj_lookup(fields, "details") {
                Option::Some(Json::Arr(items)) => match parse_strings(items) {
                    Option::Some(d) => d,
                    Option::None => {
                        return Option::None;
                    },
                },
                _ => {
                    return Option::None;
                },
            };
            let title = match get_string_field(fields, "title") {
                Option::Some(v) => v,
                Option::None => {
                    return Option::None;
                },
            };
            let error_type = match get_string_field(fields, "type") {
                Option::Some(v) => v,
                Option::None => {
                    return Option::None;
                },
            };
            Option::Some(CreateRuleError { value, details, title, error_type })
        },
        _ => Option::None,
    }
}

pub open spec fn spec_parse_rule_errors(items: Seq<JsonVal>) -> Option<Seq<CreateRuleErrorView>>
    decreases items,
{
    if items.len() == 0 {
        Option::Some(Seq::empty())
    } else {
        match (spec_parse_rule_error(items[0]), spec_parse_rule_errors(items.drop_first())) {
            (Option::Some(x), Option::Some(rest)) => Option::Some(seq![x] + rest),
            _ => Option::None,
        }
    }
}

pub fn parse_rule_errors(items: &Vec<Json>) -> (r: Option<Vec<CreateRuleError>>)
    ensures
        match r {
            Option::Some(v) => spec_parse_rule_errors(arr_view(items@)) == Option::Some(
                v@.map_values(|e: CreateRuleError| e@),
            ),
            Option::None => spec_parse_rule_errors(arr_view(items@)) is None,
        },
{
    let ghost all = arr_view(items@);
    proof {
        lemma_arr_view_len(items@);
        assert(all.skip(0int) =~= all);
    }
    let mut out: Vec<CreateRuleError> = Vec::new();
    let mut i: usize = 0;
    while i < items.len()
        invariant
            i <= items@.len(),
            all == arr_view(items@),
            all.len() == items@.len(),
            out@.len() == i,
            spec_parse_rule_errors(all) == (match spec_parse_rule_errors(all.skip(i as int)) {
                Option::Some(rest) => Option::Some(
                    out@.map_values(|e: CreateRuleError| e@) + rest,
                ),
                Option::None => Option::None::<Seq<CreateRuleErrorView>>,
            }),
        decreases items@.len() - i,
    {
        proof {
            lemma_arr_view_index(items@, i as int);
            assert(all.skip(i as int)[0] == all[i as int]);
            assert(all.skip(i as int).drop_first() =~= all.skip(i + 1));
        }
        match parse_rule_error(&items[i]) {
            Option::Some(x) => {
                let ghost prev = out@;
                let ghost xv = x@;
                out.push(x);
                proof {
                    assert(out@.map_values(|e: CreateRuleError| e@) =~= prev.map_values(
                        |e: CreateRuleError| e@,
                    ) + seq![xv]);
                    let m = spec_parse_rule_errors(all.skip(i + 1));
                    if m is Some {
                        let rest2 = m->0;
                        assert((prev.map_values(|e: CreateRuleError| e@) + seq![xv]) + rest2
                            =~= prev.map_values(|e: CreateRuleError| e@) + (seq![xv] + rest2));
                    }
                }
            },
            Option::None => {
                return Option::None;
            },
        }
        i += 1;
    }
    proof {
        assert(all.skip(items@.len() as int) =~= Seq::<JsonVal>::empty());
        assert(out@.map_values(|e: CreateRuleError| e@) + Seq::<CreateRuleErrorView>::empty()
            =~= out@.map_values(|e: CreateRuleError| e@));
    }
    Option::Some(out)
}

/// The whole create-rule response, from its document.
pub open spec fn spec_parse_create_response(v: JsonVal) -> Option<CreateRuleResponseView> {
    match v {
        JsonVal::Obj(fields) => match (
            spec_opt_rules(fields, "data"@),
            match obj_get(fields, "errors"@) {
                Option::None => Option::Some(Option::None::<Seq<CreateRuleErrorView>>),
                Option::Some(JsonVal::Null) => Option::Some(Option::None),
                Option::Some(JsonVal::Arr(items)) => match spec_parse_rule_errors(items) {
                    Option::Some(s) => Option::Some(Option::Some(s)),
                    Option::None => Option::None,
                },
                Option::Some(_) => Option::None,
            },
            match obj_get(fields, "meta"@) {
                Option::Some(m) => spec_parse_meta(m),
                Option::None => Option::None,
            },
        ) {
            (Option::Some(data), Option::Some(errors), Option::Some(meta)) => Option::Some(
                CreateRuleResponseView { data, errors, meta },
            ),
            _ => Option::None,
        },
        _ => Option::None,
    }
}

pub fn create_response_from_json(j: &Json) -> (r: Option<CreateRuleResponse>)
    ensures
        match r {
            Option::Some(x) => spec_parse_create_response(j@) == Option::Some(x@),
            Option::None => spec_parse_create_response(j@) is None,
        },
{
    match j {
        Json::Obj(fields) => {
            let data = match opt_rules_field(fields, "data") {
                Option::Some(d) => d,
                Option::None => {
                    return Option::None;
                },
            };
            let errors = match obj_lookup(fields, "errors") {
                Option::None => Option::None,
                Option::Some(Json::Null) => Option::None,
                Option::Some(Json::Arr(items)) => match parse_rule_errors(items) {
                    Option::Some(s) => Option::Some(s),
                    Option::None => {
                        return Option::None;
                    },
                },
                Option::Some(_) => {
                    return Option::None;
                },
            };
            let meta = match obj_lookup(fields, "meta") {
                Option::Some(m) => match parse_meta(m) {
                    Option::Some(x) => x,
                    Option::None => {
                        return Option::None;
                    },
                },
                Option::None => {
                    return Option::None;
                },
            };
            Option::Some(CreateRuleResponse { data, errors, meta })
        },
        _ => Option::None,
    }
}

/// The whole delete-rule response, from its document.
pub open spec fn spec_parse_delete_response(v: JsonVal) -> Option<ResponseRuleMetaView> {
    match v {
        JsonVal::Obj(fields) => match obj_get(fields, "meta"@) {
            Option::Some(m) => spec_parse_meta(m),
            Option::None => Option::None,
        },
        _ => Option::None,
    }
}

pub fn delete_response_from_json(j: &Json) -> (r: Option<DeleteRuleResponse>)
    ensures
        match r {
            Option::Some(x) => spec_parse_delete_response(j@) == Option::Some(x@),
            Option::None => spec_parse_delete_response(j@) is None,
        },
{
    match j {
        Json::Obj(fields) => match obj_lookup(fields, "meta") {
            Option::Some(m) => match parse_meta(m) {
                Option::Some(meta) => Option::Some(DeleteRuleResponse { meta }),
                Option::None => Option::None,
            },
            Option::None => Option::None,
        },
        _ => Option::None,
    }
}

/// The first count bound to `key` in a summary.
pub open spec fn spec_count(s: Seq<(Seq<char>, usize)>, key: Seq<char>) -> Option<usize>
    decreases s,
{
    if s.len() == 0 {
        Option::None
    } else if s[0].0 == key {
        Option::Some(s[0].1)
    } else {
        spec_count(s.drop_first(), key)
    }
}

impl ResponseRuleMeta {
    /// Looks a counter up in the summary; first binding wins.
    pub fn count(&self, key: &str) -> (r: Option<usize>)
        ensures
            r == spec_count(self@.summary, key@),
    {
        let ghost all = self@.summary;
        proof {
            assert(all.skip(0int) =~= all);
        }
        let mut i: usize = 0;
        while i < self.summary.len()
            invariant
                i <= self.summary@.len(),
                all == self@.summary,
                all.len() == self.summary@.len(),
                spec_count(all, key@) == spec_count(all.skip(i as int), key@),
            decreases self.summary@.len() - i,
        {
            proof {
                assert(all.skip(i as int)[0] == all[i as int]);
            }
            if crate::json::str_eq(self.summary[i].0.as_str(), key) {
                return Option::Some(self.summary[i].1);
            }
            proof {
                assert(all.skip(i as int).drop_first() =~= all.skip(i + 1));
            }
            i += 1;
        }
        proof {
            assert(all.skip(self.summary@.len() as int) =~= Seq::<(Seq<char>, usize)>::empty());
        }
        Option::None
    }
}

/// Why a rule response did not mean success.
#[derive(Debug, PartialEq, Clone, Copy)]
pub enum RuleResponseError {
    /// The response carried an error list.
    ErrorsReported,
    /// The summary did not report exactly one rule created.
    UnexpectedSummary,
    /// The summary reported a creation but the response carried no rule.
    MissingData,
}

/// Decides what a create-rule response means: the created rule exactly
/// when no error is reported, the summary counts one creation, and the
/// rule is present.
pub fn interpret_create_response(resp: CreateRuleResponse) -> (r: Result<Rule, RuleResponseError>)
    ensures
        match r {
            Result::Ok(rule) => resp@.errors is None && spec_count(resp@.meta.summary, "created"@)
                == Option::Some(1usize) && resp@.data is Some && resp@.data->0.len() >= 1 && rule@
                == resp@.data->0[0],
            Result::Err(e) => match e {
                RuleResponseError::ErrorsReported => resp@.errors is Some,
                RuleResponseError::UnexpectedSummary => resp@.errors is None && spec_count(
                    resp@.meta.summary,
                    "created"@,
                ) != Option::Some(1usize),
                RuleResponseError::MissingData => resp@.errors is None && spec_count(
                    resp@.meta.summary,
                    "created"@,
                ) == Option::Some(1usize) && (resp@.data is None || resp@.data->0.len() == 0),
            },
        },
{
    if resp.errors.is_some() {
        return Result::Err(RuleResponseError::ErrorsReported);
    }
    let created_one = match resp.meta.count("created") {
        Option::Some(n) => n == 1,
        Option::None => false,
    };
    if !created_one {
        return Result::Err(RuleResponseError::UnexpectedSummary);
    }
    match resp.data {
        Option::Some(mut rules) => {
            if rules.len() >= 1 {
                Result::Ok(rules.remove(0))
            } else {
                Result::Err(RuleResponseError::MissingData)
            }
        },
        Option::None => Result::Err(RuleResponseError::MissingData),
    }
}

impl DeleteRuleResponse {
    /// Whether the response reports exactly the expected number of
    /// deletions.
    pub fn deleted_exactly(&self, expected: usize) -> (r: bool)
        ensures
            r == (spec_count(self@.summary, "deleted"@) == Option::Some(expected)),
    {
        match self.meta.count("deleted") {
            Option::Some(n) => n == expected,
            Option::None => false,
        }
    }
}

/// The request body that creates one rule: `{"add": [rule]}`.
pub open spec fn create_rule_jsonval(v: crate::opts::CreateRuleView) -> JsonVal {
    JsonVal::Obj(
        seq![
            ("add"@, JsonVal::Arr(
                seq![
                    JsonVal::Obj(
                        seq![
                            ("value"@, JsonVal::Str(v.value)),
                            ("tag"@, crate::serialize::opt_str_val(v.tag)),
                        ],
                    ),
                ],
            )),
        ],
    )
}

/// Builds the JSON text that asks the endpoint to add one rule.
pub fn create_rule_payload(rule: &crate::opts::CreateRule) -> (r: String)
    ensures
        r@ == emit_json(create_rule_jsonval(rule@)),
{
    let mut inner: Vec<(String, Json)> = Vec::new();
    inner.push(("value".to_owned(), Json::Str(rule.value.clone())));
    inner.push(
        (
            "tag".to_owned(),
            match &rule.tag {
                Option::Some(t) => Json::Str(t.clone()),
                Option::None => Json::Null,
            },
        ),
    );
    let ghost inner_view = obj_view(inner@);
    proof {
        assert(inner_view =~= seq![
            ("value"@, JsonVal::Str(rule@.value)),
            ("tag"@, crate::serialize::opt_str_val(rule@.tag)),
        ]);
    }
    let mut items: Vec<Json> = Vec::new();
    items.push(Json::Obj(inner));
    let ghost items_view = arr_view(items@);
    proof {
        assert(items_view =~= seq![JsonVal::Obj(inner_view)]);
    }
    let mut outer: Vec<(String, Json)> = Vec::new();
    outer.push(("add".to_owned(), Json::Arr(items)));
    let doc = Json::Obj(outer);
    proof {
        assert(obj_view(doc->Obj_0@) =~= seq![("add"@, JsonVal::Arr(items_view))]);
        assert(obj_view(doc->Obj_0@) == create_rule_jsonval(rule@)->Obj_0);
    }
    json_to_string(&doc)
}

/// The request body that deletes rules by id:
/// `{"delete": {"ids": [...]}}`.
pub open spec fn delete_rules_jsonval(ids: Seq<Seq<char>>) -> JsonVal {
    JsonVal::Obj(
        seq![
            ("delete"@, JsonVal::Obj(
                seq![
                    ("ids"@, JsonVal::Arr(ids.map_values(|s: Seq<char>| JsonVal::Str(s)))),
                ],
            )),
        ],
    )
}

/// Builds the JSON text that asks the endpoint to delete the given rules.
pub fn delete_rules_payload(ids: &Vec<String>) -> (r: String)
    ensures
        r@ == emit_json(delete_rules_jsonval(ids@.map_values(|s: String| s@))),
{
    let mut items: Vec<Json> = Vec::new();
    let mut i: usize = 0;
    while i < ids.len()
        invariant
            i <= ids@.len(),
            items@.len() == i,
            forall|k: int| 0 <= k < i ==> json_view(#[trigger] items@[k]) == JsonVal::Str(
                ids@[k]@,
            ),
        decreases ids@.len() - i,
    {
        items.push(Json::Str(ids[i].clone()));
        i += 1;
    }
    proof {
        assert(arr_view(items@) =~= ids@.map_values(|s: String| s@).map_values(
            |s: Seq<char>| JsonVal::Str(s),
        ));
    }
    let ghost items_view = arr_view(items@);
    let mut inner: Vec<(String, Json)> = Vec::new();
    inner.push(("ids".to_owned(), Json::Arr(items)));
    let ghost inner_view = obj_view(inner@);
    proof {
        assert(inner_view =~= seq![("ids"@, JsonVal::Arr(items_view))]);
    }
    let mut outer: Vec<(String, Json)> = Vec::new();
    outer.push(("delete".to_owned(), Json::Obj(inner)));
    let doc = Json::Obj(outer);
    proof {
        assert(obj_view(doc->Obj_0@) =~= seq![("delete"@, JsonVal::Obj(inner_view))]);
        assert(obj_view(doc->Obj_0@) == delete_rules_jsonval(ids@.map_values(|s: String| s@))->Obj_0);
    }
    json_to_string(&doc)
}

/// Builds the JSON text that asks the endpoint to delete one rule.
pub fn delete_rule_payload(id: &str) -> (r: String)
    ensures
        r@ == emit_json(delete_rules_jsonval(seq![id@])),
{
    let mut ids: Vec<String> = Vec::new();
    ids.push(id.to_owned());
    proof {
        assert(ids@.map_values(|s: String| s@) =~= seq![id@]);
    }
    delete_rules_payload(&ids)
}


/// The cause recorded when a response is valid JSON but not of the
/// expected shape.
pub const RESPONSE_SCHEMA_MISMATCH: &'static str =
    "document does not match the expected response schema";

/// Reads a list-rules response from the bytes of the response body: the
/// parsed response exactly when the bytes read as a document
/// ([`crate::chunk::json_doc_of`]) of the expected shape; otherwise the
/// parse cause, or the schema-mismatch cause for a readable document of
/// the wrong shape.
pub fn parse_list_rules_response(raw: &[u8]) -> (r: Result<ListRulesResponse, String>)
    ensures
        match r {
            Result::Ok(x) => match crate::chunk::json_doc_of(raw@) {
                Result::Ok(v) => spec_parse_list_rules(v) == Option::Some(x@),
                Result::Err(_) => false,
            },
            Result::Err(e) => match crate::chunk::json_doc_of(raw@) {
                Result::Ok(v) => spec_parse_list_rules(v) is None && e@
                    == RESPONSE_SCHEMA_MISMATCH@,
                Result::Err(pe) => e@ == pe,
            },
        },
{
    let doc = crate::chunk::parse_json_bytes(raw);
    match doc {
        Result::Err(e) => Result::Err(e),
        Result::Ok(j) => match list_rules_from_json(&j) {
            Option::Some(x) => Result::Ok(x),
            Option::None => Result::Err(RESPONSE_SCHEMA_MISMATCH.to_owned()),
        },
    }
}

/// Reads a create-rule response from the bytes of the response body,
/// exact in the same way as [`parse_list_rules_response`].
pub fn parse_create_rule_response(raw: &[u8]) -> (r: Result<CreateRuleResponse, String>)
    ensures
        match r {
            Result::Ok(x) => match crate::chunk::json_doc_of(raw@) {
                Result::Ok(v) => spec_parse_create_response(v) == Option::Some(x@),
                Result::Err(_) => false,
            },
            Result::Err(e) => match crate::chunk::json_doc_of(raw@) {
                Result::Ok(v) => spec_parse_create_response(v) is None && e@
                    == RESPONSE_SCHEMA_MISMATCH@,
                Result::Err(pe) => e@ == pe,
            },
        },
{
    let doc = crate::chunk::parse_json_bytes(raw);
    match doc {
        Result::Err(e) => Result::Err(e),
        Result::Ok(j) => match create_response_from_json(&j) {
            Option::Some(x) => Result::Ok(x),
            Option::None => Result::Err(RESPONSE_SCHEMA_MISMATCH.to_owned()),
        },
    }
}

/// Reads a delete-rule response from the bytes of the response body,
/// exact in the same way as [`parse_list_rules_response`].
pub fn parse_delete_rule_response(raw: &[u8]) -> (r: Result<DeleteRuleResponse, String>)
    ensures
        match r {
            Result::Ok(x) => match crate::chunk::json_doc_of(raw@) {
                Result::Ok(v) => spec_parse_delete_response(v) == Option::Some(x@),
                Result::Err(_) => false,
            },
            Result::Err(e) => match crate::chunk::json_doc_of(raw@) {
                Result::Ok(v) => spec_parse_delete_response(v) is None && e@
                    == RESPONSE_SCHEMA_MISMATCH@,
                Result::Err(pe) => e@ == pe,
            },
        },
{
    let doc = crate::chunk::parse_json_bytes(raw);
    match doc {
        Result::Err(e) => Result::Err(e),
        Result::Ok(j) => match delete_response_from_json(&j) {
            Option::Some(x) => Result::Ok(x),
            Option::None => Result::Err(RESPONSE_SCHEMA_MISMATCH.to_owned()),
        },
    }
}

/// A string as a quoted literal, its quotes and control characters
/// escaped.
pub open spec fn spec_quoted(s: Seq<char>) -> Seq<char> {
    seq!['"'] + escape_str(s) + seq!['"']
}

/// The one-line description of a rule: its id, its quoted value, and,
/// when a tag is set, the quoted tag.
pub open spec fn spec_rule_describe(v: RuleView) -> Seq<char> {
    v.id + ": "@ + spec_quoted(
        match v.value {
            Option::Some(s) => s,
            Option::None => Seq::empty(),
        },
    ) + (match v.tag {
        Option::None => Seq::<char>::empty(),
        Option::Some(t) => " [tag: "@ + spec_quoted(t) + "]"@,
    })
}

impl Rule {
    /// The one-line description of this rule.
    pub fn describe(&self) -> (r: String)
        ensures
            r@ == spec_rule_describe(self@),
    {
        let mut out: Vec<char> = Vec::new();
        push_str_chars(&mut out, self.id.as_str());
        push_str_chars(&mut out, ": ");
        out.push('"');
        match &self.value {
            Option::Some(s) => push_escaped(&mut out, s.as_str()),
            Option::None => {},
        }
        out.push('"');
        match &self.tag {
            Option::Some(t) => {
                push_str_chars(&mut out, " [tag: ");
                out.push('"');
                push_escaped(&mut out, t.as_str());
                out.push('"');
                push_str_chars(&mut out, "]");
            },
            Option::None => {},
        }
        proof {
            assert(out@ =~= spec_rule_describe(self@));
        }
        chars_to_string(out)
    }
}

/// The listing lines of the rules, one per rule.
pub open spec fn spec_rules_listing(s: Seq<RuleView>) -> Seq<char>
    decreases s,
{
    if s.len() == 0 {
        Seq::empty()
    } else {
        spec_rules_listing(s.drop_last()) + "\n- "@ + spec_rule_describe(s.last())
    }
}

/// The description of a whole rule list: a headline with the count, then
/// one line per rule; or a plain note when there are none.
pub open spec fn spec_list_describe(v: ListRulesResponseView) -> Seq<char> {
    match v.data {
        Option::None => "No rules"@,
        Option::Some(s) => "Found "@ + dec_digits(s.len()) + " rules:"@ + spec_rules_listing(s),
    }
}

impl ListRulesResponse {
    /// The description of this response.
    pub fn describe(&self) -> (r: String)
        ensures
            r@ == spec_list_describe(self@),
    {
        match &self.data {
            Option::None => "No rules".to_owned(),
            Option::Some(rules) => {
                let ghost rv = rules@.map_values(|e: Rule| e@);
                let mut out: Vec<char> = Vec::new();
                push_str_chars(&mut out, "Found ");
                push_u64_digits(&mut out, rules.len() as u64);
                push_str_chars(&mut out, " rules:");
                let ghost head = "Found "@ + dec_digits(rv.len()) + " rules:"@;
                proof {
                    assert(out@ =~= head + spec_rules_listing(rv.take(0int)));
                }
                let mut i: usize = 0;
                while i < rules.len()
                    invariant
                        i <= rules@.len(),
                        rv == rules@.map_values(|e: Rule| e@),
                        rv.len() == rules@.len(),
                        out@ == head + spec_rules_listing(rv.take(i as int)),
                    decreases rules@.len() - i,
                {
                    push_str_chars(&mut out, "\n- ");
                    let line = rules[i].describe();
                    push_str_chars(&mut out, line.as_str());
                    proof {
                        assert(rv.take(i + 1).drop_last() =~= rv.take(i as int));
                        assert(rv.take(i + 1).last() == rv[i as int]);
                        assert(out@ =~= head + spec_rules_listing(rv.take(i + 1)));
                    }
                    i += 1;
                }
                proof {
                    assert(rv.take(rules@.len() as int) =~= rv);
                }
                chars_to_string(out)
            },
        }
    }
}

} // verus!
