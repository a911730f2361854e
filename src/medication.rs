use vstd::prelude::*;
use crate::error::{AppError, ErrorKind};
use crate::models::{CreateReviewRequest, GeneratePlanRequest, MedicationPlan, MedicationReview};
use crate::record_id::{id_bytes_of, is_id_text, RecordId};
use crate::token::{jwt_claims, live_subject, TokenService};

verus! {

/// The instant, in milliseconds since the Unix epoch, that chrono's
/// `DateTime::parse_from_rfc3339` reads from the text; `None` when it refuses it.
pub uninterp spec fn rfc3339_millis(s: Seq<char>) -> Option<int>;

/// What serde_json finds in a reply of the text-generation service: `None` when the
/// body is not JSON; otherwise the string at `["choices"][0]["message"]["content"]`,
/// if any.
pub uninterp spec fn reply_content(body: Seq<char>) -> Option<Option<Seq<char>>>;

pub open spec fn opt_view(o: Option<String>) -> Option<Seq<char>> {
    match o {
        Some(s) => Some(s@),
        None => None,
    }
}

/// Relies on chrono's `DateTime::parse_from_rfc3339` and `timestamp_millis`.
#[verifier::external_body]
fn parse_rfc3339_millis(s: &str) -> (r: Result<i64, String>)
    ensures
        r is Ok <==> rfc3339_millis(s@) is Some,
        r matches Ok(t) ==> rfc3339_millis(s@) == Some(t as int),
{
    chrono::DateTime::parse_from_rfc3339(s).map(|d| d.timestamp_millis()).map_err(|e| e.to_string())
}

/// Relies on `serde_json::from_str` into a `Value`, then `Value`'s indexing by key and
/// by position (a missing entry reads as `Null`), then `as_str`.
#[verifier::external_body]
fn parse_reply_content(body: &str) -> (r: Result<Option<String>, String>)
    ensures
        r is Ok <==> reply_content(body@) is Some,
        r matches Ok(c) ==> reply_content(body@) == Some(opt_view(c)),
{
    let v = serde_json::from_str::<serde_json::Value>(body).map_err(|e| e.to_string())?;
    Ok(v["choices"][0]["message"]["content"].as_str().map(|c| c.to_string()))
}

pub open spec fn views_of(v: Seq<String>) -> Seq<Seq<char>> {
    v.map_values(|s: String| s@)
}

/// The items joined with ", " between neighbours.
pub open spec fn comma_joined(items: Seq<Seq<char>>) -> Seq<char>
    decreases items.len(),
{
    if items.len() == 0 {
        Seq::empty()
    } else if items.len() == 1 {
        items[0]
    } else {
        comma_joined(items.drop_last()) + ", "@ + items.last()
    }
}

/// The request sent to the text-generation service for a medication and its focus areas.
pub open spec fn plan_prompt_text(medication_name: Seq<char>, focus_areas: Seq<Seq<char>>) -> Seq<char> {
    "Generate a comprehensive medication review plan for someone taking "@ + medication_name
        + ". \n\nFocus on these areas: "@ + comma_joined(focus_areas)
        + ". \n\nInclude daily tracking questions, potential side effects to watch for, and any specific considerations related to the focus areas. \n\nProvide a structured plan that can be used for daily reviews."@
}

/// What a plan holds when the service's reply carries no text.
pub open spec fn fallback_plan_text() -> Seq<char> {
    "Failed to generate plan"@
}

/// The focus areas joined with ", ".
pub fn join_focus_areas(areas: &Vec<String>) -> (r: String)
    ensures
        r@ == comma_joined(views_of(areas@)),
{
    let mut out = String::new();
    let mut i: usize = 0;
    while i < areas.len()
        invariant
            i <= areas.len(),
            out@ == comma_joined(views_of(areas@).take(i as int)),
        decreases areas.len() - i,
    {
        let ghost before = views_of(areas@).take(i as int);
        let ghost after = views_of(areas@).take(i + 1);
        proof {
            assert(after.drop_last() =~= before);
            assert(after.last() == areas@[i as int]@);
        }
        if i > 0 {
            out.append(", ");
        }
        out.append(areas[i].as_str());
        proof {
            if i == 0 {
                assert(after.len() == 1);
            }
        }
        i = i + 1;
    }
    proof {
        assert(views_of(areas@).take(areas.len() as int) =~= views_of(areas@));
    }
    out
}

/// The prompt for a plan: the medication and the comma-joined focus areas.
pub fn plan_prompt(medication_name: &str, focus_areas: &Vec<String>) -> (r: String)
    ensures
        r@ == plan_prompt_text(medication_name@, views_of(focus_areas@)),
{
    let joined = join_focus_areas(focus_areas);
    let out = String::from_str("Generate a comprehensive medication review plan for someone taking ");
    let out = out.concat(medication_name);
    let out = out.concat(". \n\nFocus on these areas: ");
    let out = out.concat(joined.as_str());
    out.concat(
        ". \n\nInclude daily tracking questions, potential side effects to watch for, and any specific considerations related to the focus areas. \n\nProvide a structured plan that can be used for daily reviews.",
    )
}

/// Parses an id from a request; malformed text is a validation error.
pub fn parse_id(s: &str) -> (r: Result<RecordId, AppError>)
    ensures
        r is Ok <==> is_id_text(s@),
        r matches Ok(id) ==> id.bytes@ == id_bytes_of(s@),
        r matches Err(e) ==> e.spec_kind() == ErrorKind::Validation,
{
    match RecordId::parse(s) {
        Ok(id) => Ok(id),
        Err(m) => Err(AppError::ValidationError(m)),
    }
}

/// The first step of plan generation: the owner's id, checked before anything
/// else, and the prompt to send to the text-generation service.
pub fn prepare_plan(req: &GeneratePlanRequest) -> (r: Result<(RecordId, String), AppError>)
    ensures
        r is Ok <==> is_id_text(req.user_id@),
        r matches Ok((owner, prompt)) ==> owner.bytes@ == id_bytes_of(req.user_id@) && prompt@
            == plan_prompt_text(req.medication_name@, views_of(req.focus_areas@)),
        r matches Err(e) ==> e.spec_kind() == ErrorKind::Validation,
{
    let owner = match parse_id(req.user_id.as_str()) {
        Ok(id) => id,
        Err(e) => return Err(e),
    };
    let prompt = plan_prompt(req.medication_name.as_str(), &req.focus_areas);
    Ok((owner, prompt))
}

/// The plan text, or the fallback text when the reply carried none.
pub fn plan_content_or_fallback(content: Option<String>) -> (r: String)
    ensures
        r@ == match opt_view(content) {
            Some(c) => c,
            None => fallback_plan_text(),
        },
{
    match content {
        Some(c) => c,
        None => String::from_str("Failed to generate plan"),
    }
}

pub open spec fn call_failure_prefix() -> Seq<char> {
    "Failed to call Mistral API: "@
}

pub open spec fn reply_failure_prefix() -> Seq<char> {
    "Failed to parse Mistral API response: "@
}

/// The error for a request to the text-generation service that could not be sent.
pub fn ai_call_error(detail: &str) -> (e: AppError)
    ensures
        e.spec_kind() == ErrorKind::Validation,
        e.text() == call_failure_prefix() + detail@,
{
    AppError::ValidationError(String::from_str("Failed to call Mistral API: ").concat(detail))
}

/// The error for a reply of the text-generation service that could not be read.
pub fn ai_reply_error(detail: &str) -> (e: AppError)
    ensures
        e.spec_kind() == ErrorKind::Validation,
        e.text() == reply_failure_prefix() + detail@,
{
    AppError::ValidationError(String::from_str("Failed to parse Mistral API response: ").concat(detail))
}

/// The plan text from what the JSON reader made of a reply: its content (or the
/// fallback text when there is none), or a validation error that carries the
/// reader's message.
pub fn plan_content_from_parsed(parsed: Result<Option<String>, String>) -> (r: Result<String, AppError>)
    ensures
        parsed matches Ok(c) ==> (r matches Ok(t) && t@ == match opt_view(c) {
            Some(x) => x,
            None => fallback_plan_text(),
        }),
        parsed matches Err(m) ==> (r matches Err(e) && e.spec_kind() == ErrorKind::Validation
            && e.text() == reply_failure_prefix() + m@),
{
    match parsed {
        Ok(c) => Ok(plan_content_or_fallback(c)),
        Err(m) => Err(ai_reply_error(m.as_str())),
    }
}

/// The plan text in a reply body of the text-generation service; a body that is
/// not JSON is a validation error carrying the JSON reader's message.
pub fn plan_content_from_reply(body: &str) -> (r: Result<String, AppError>)
    ensures
        r is Ok <==> reply_content(body@) is Some,
        r matches Ok(c) ==> c@ == match reply_content(body@)->0 {
            Some(t) => t,
            None => fallback_plan_text(),
        },
        r matches Err(e) ==> e.spec_kind() == ErrorKind::Validation && e.text().len()
            >= reply_failure_prefix().len() && e.text().take(reply_failure_prefix().len() as int)
            == reply_failure_prefix(),
{
    let r = plan_content_from_parsed(parse_reply_content(body));
    proof {
        if r is Err {
            let e = r->Err_0;
            assert(e.text().take(reply_failure_prefix().len() as int) =~= reply_failure_prefix());
        }
    }
    r
}

/// The plan to insert, from the request, its owner, the service's reply body and
/// the creation time. After the insert the caller amends it with `with_id`.
pub fn generate_plan(req: GeneratePlanRequest, owner: RecordId, reply_body: &str, now_millis: i64) -> (r: Result<MedicationPlan, AppError>)
    ensures
        r is Ok <==> reply_content(reply_body@) is Some,
        r matches Ok(p) ==> p.id is None && p.user_id == owner && p.medication_name@
            == req.medication_name@ && p.created_at == now_millis && p.focus_areas@
            == req.focus_areas@ && p.plan_content@ == match reply_content(reply_body@)->0 {
            Some(t) => t,
            None => fallback_plan_text(),
        },
        r matches Err(e) ==> e.spec_kind() == ErrorKind::Validation && e.text().len()
            >= reply_failure_prefix().len() && e.text().take(reply_failure_prefix().len() as int)
            == reply_failure_prefix(),
{
    let plan_content = match plan_content_from_reply(reply_body) {
        Ok(c) => c,
        Err(e) => return Err(e),
    };
    Ok(
        MedicationPlan {
            id: None,
            user_id: owner,
            medication_name: req.medication_name,
            plan_content,
            created_at: now_millis,
            focus_areas: req.focus_areas,
        },
    )
}

pub open spec fn date_failure_prefix() -> Seq<char> {
    "Invalid date format: "@
}

/// The review to insert, from the request, its parsed ids, and what the date
/// reader made of its date: the instant in milliseconds, or a validation error
/// that carries the reader's message.
pub fn review_with_date(req: CreateReviewRequest, user_id: RecordId, plan_id: RecordId, date: Result<i64, String>) -> (r: Result<MedicationReview, AppError>)
    ensures
        date matches Ok(t) ==> (r matches Ok(rv) && rv.id is None && rv.user_id == user_id
            && rv.plan_id == plan_id && rv.date == t && rv.symptoms@ == req.symptoms@
            && rv.side_effects@ == req.side_effects@ && rv.notes@ == req.notes@ && rv.rating
            == req.rating),
        date matches Err(m) ==> (r matches Err(e) && e.spec_kind() == ErrorKind::Validation
            && e.text() == date_failure_prefix() + m@),
{
    match date {
        Ok(t) => Ok(
            MedicationReview {
                id: None,
                user_id,
                plan_id,
                date: t,
                symptoms: req.symptoms,
                side_effects: req.side_effects,
                notes: req.notes,
                rating: req.rating,
            },
        ),
        Err(m) => Err(
            AppError::ValidationError(String::from_str("Invalid date format: ").concat(m.as_str())),
        ),
    }
}

/// The review to insert: both ids and the RFC 3339 date are parsed, and a
/// malformed one is a validation error. The foreign ids are not checked for
/// existence. After the insert the caller amends it with `with_id`.
pub fn create_review(req: CreateReviewRequest) -> (r: Result<MedicationReview, AppError>)
    ensures
        r is Ok <==> is_id_text(req.user_id@) && is_id_text(req.plan_id@) && rfc3339_millis(
            req.date@,
        ) is Some,
        r matches Ok(rv) ==> rv.id is None && rv.user_id.bytes@ == id_bytes_of(req.user_id@)
            && rv.plan_id.bytes@ == id_bytes_of(req.plan_id@) && Some(rv.date as int)
            == rfc3339_millis(req.date@) && rv.symptoms@ == req.symptoms@ && rv.side_effects@
            == req.side_effects@ && rv.notes@ == req.notes@ && rv.rating == req.rating,
        r matches Err(e) ==> e.spec_kind() == ErrorKind::Validation,
{
    let user_id = match parse_id(req.user_id.as_str()) {
        Ok(id) => id,
        Err(e) => return Err(e),
    };
    let plan_id = match parse_id(req.plan_id.as_str()) {
        Ok(id) => id,
        Err(e) => return Err(e),
    };
    let date = parse_rfc3339_millis(req.date.as_str());
    review_with_date(req, user_id, plan_id, date)
}

/// Whose reviews to list: the user named by a valid, unexpired token.
pub fn get_reviews(tokens: &TokenService, token: &str, now: u64) -> (r: Result<RecordId, AppError>)
    ensures
        r is Ok <==> (live_subject(jwt_claims(token@, tokens.secret@), now as int) matches Some(s)
            && is_id_text(s)),
        r matches Ok(id) ==> id.bytes@ == id_bytes_of(
            live_subject(jwt_claims(token@, tokens.secret@), now as int)->0,
        ),
        r matches Err(e) ==> e.spec_kind() == ErrorKind::Auth,
{
    let subject = match tokens.verify(token, now) {
        Ok(s) => s,
        Err(e) => return Err(e),
    };
    match RecordId::parse(subject.as_str()) {
        Ok(id) => Ok(id),
        Err(_) => Err(AppError::AuthError(String::from_str("Invalid token"))),
    }
}

} // verus!
