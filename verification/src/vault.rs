use vstd::prelude::*;
use crate::clock::local_timestamp;
use crate::fetch::Fetch;
use crate::model::FirestoreLead;

verus! {

/// The `fields` object of a Firestore document, as far as leads read it:
/// the `stringValue` of its `name` and of its `email` field, where present.
pub struct FirestoreFields {
    pub name: Option<String>,
    pub email: Option<String>,
}

/// One entry of a Firestore `documents` listing: its `name` where it is a
/// string, and its `fields` where they form an object.
pub struct FirestoreDocument {
    pub name: Option<String>,
    pub fields: Option<FirestoreFields>,
}

/// The text of `o`, or `default` where it is absent.
pub open spec fn text_or(o: Option<String>, default: Seq<char>) -> Seq<char> {
    match o {
        Some(s) => s@,
        None => default,
    }
}

/// Identifier, name and e-mail of a lead, as text.
pub type LeadText = (Seq<char>, Seq<char>, Seq<char>);

/// The lead a document yields: none without fields; otherwise its name
/// (or `unknown`), its `name` field (or `Unknown`) and its `email` field
/// (or `unknown@example.com`).
pub open spec fn spec_document_lead(doc: FirestoreDocument) -> Option<LeadText> {
    match doc.fields {
        Some(f) => Some(
            (
                text_or(doc.name, "unknown"@),
                text_or(f.name, "Unknown"@),
                text_or(f.email, "unknown@example.com"@),
            ),
        ),
        None => None,
    }
}

/// The leads of a listing, in order, skipping documents without fields.
pub open spec fn spec_leads(docs: Seq<FirestoreDocument>) -> Seq<LeadText>
    decreases docs.len(),
{
    if docs.len() == 0 {
        Seq::empty()
    } else {
        let rest = spec_leads(docs.drop_last());
        match spec_document_lead(docs.last()) {
            Some(t) => rest.push(t),
            None => rest,
        }
    }
}

/// A document yields a lead exactly when it has fields. The lead's
/// identifier is the document's name, its name the `name` field and its
/// e-mail the `email` field, each read on its own: `unknown`, `Unknown`
/// and `unknown@example.com` stand in only where that very value is
/// missing.
pub proof fn document_lead_law(doc: FirestoreDocument)
    ensures
        match doc.fields {
            Some(f) => spec_document_lead(doc) == Some(
                (
                    match doc.name {
                        Some(n) => n@,
                        None => "unknown"@,
                    },
                    match f.name {
                        Some(n) => n@,
                        None => "Unknown"@,
                    },
                    match f.email {
                        Some(e) => e@,
                        None => "unknown@example.com"@,
                    },
                ),
            ),
            None => spec_document_lead(doc) is None,
        },
{
}

/// Whether a document has fields.
pub open spec fn has_fields() -> spec_fn(FirestoreDocument) -> bool {
    |d: FirestoreDocument| d.fields is Some
}

/// A listing yields one lead per document with fields, in the listing's
/// order, and skips the documents without fields.
pub proof fn listing_leads_law(docs: Seq<FirestoreDocument>)
    ensures
        spec_leads(docs).len() == docs.filter(has_fields()).len(),
        forall|k: int|
            0 <= k < spec_leads(docs).len() ==> Some(#[trigger] spec_leads(docs)[k])
                == spec_document_lead(docs.filter(has_fields())[k]),
    decreases docs.len(),
{
    reveal_with_fuel(Seq::<_>::filter, 1);
    if docs.len() > 0 {
        listing_leads_law(docs.drop_last());
    }
}

/// The leads of a response body: none where it holds no `documents` array.
pub open spec fn spec_listing_leads(docs: Option<Vec<FirestoreDocument>>) -> Seq<LeadText> {
    match docs {
        Some(d) => spec_leads(d@),
        None => Seq::empty(),
    }
}

pub open spec fn lead_text(l: FirestoreLead) -> LeadText {
    (l.id@, l.name@, l.email@)
}

fn text_or_default(o: &Option<String>, default: &str) -> (r: String)
    ensures
        r@ == text_or(*o, default@),
{
    match o {
        Some(s) => s.clone(),
        None => default.to_owned(),
    }
}

/// The lead of one document, stamped `created_at`.
pub fn lead_from_document(doc: &FirestoreDocument, created_at: String) -> (r: Option<FirestoreLead>)
    ensures
        match spec_document_lead(*doc) {
            Some(t) => r matches Some(l) && lead_text(l) == t && l.created_at@ == created_at@,
            None => r is None,
        },
{
    match &doc.fields {
        Some(fields) => Some(
            FirestoreLead {
                id: text_or_default(&doc.name, "unknown"),
                name: text_or_default(&fields.name, "Unknown"),
                email: text_or_default(&fields.email, "unknown@example.com"),
                created_at,
            },
        ),
        None => None,
    }
}

/// The leads of a Firestore listing, the k-th stamped `stamps[k]`.
pub fn leads_from_documents_stamped(
    docs: &Option<Vec<FirestoreDocument>>,
    stamps: &Vec<String>,
) -> (r: Vec<FirestoreLead>)
    requires
        stamps@.len() == spec_listing_leads(*docs).len(),
    ensures
        r@.len() == spec_listing_leads(*docs).len(),
        forall|k: int|
            0 <= k < r@.len() ==> lead_text(#[trigger] r@[k]) == spec_listing_leads(*docs)[k]
                && r@[k].created_at@ == stamps@[k]@,
{
    let mut leads: Vec<FirestoreLead> = Vec::new();
    match docs {
        None => {},
        Some(list) => {
            let mut i: usize = 0;
            while i < list.len()
                invariant
                    i <= list@.len(),
                    stamps@.len() == spec_leads(list@).len(),
                    leads@.len() == spec_leads(list@.take(i as int)).len(),
                    leads@.len() <= stamps@.len(),
                    forall|k: int|
                        0 <= k < leads@.len() ==> lead_text(#[trigger] leads@[k]) == spec_leads(
                            list@.take(i as int),
                        )[k] && leads@[k].created_at@ == stamps@[k]@,
                decreases list@.len() - i,
            {
                proof {
                    assert(list@.take(i + 1).drop_last() =~= list@.take(i as int));
                    lemma_leads_prefix_len(list@, i as int + 1);
                }
                let doc = &list[i];
                if doc.fields.is_some() {
                    let stamp = stamps[leads.len()].clone();
                    match lead_from_document(doc, stamp) {
                        Some(lead) => {
                            leads.push(lead);
                        },
                        None => {},
                    }
                }
                i = i + 1;
            }
            proof {
                assert(list@.take(list@.len() as int) =~= list@);
            }
        },
    }
    leads
}

proof fn lemma_leads_prefix_len(docs: Seq<FirestoreDocument>, i: int)
    requires
        0 <= i <= docs.len(),
    ensures
        spec_leads(docs.take(i)).len() <= spec_leads(docs).len(),
    decreases docs.len(),
{
    if i < docs.len() {
        let shorter = docs.drop_last();
        lemma_leads_prefix_len(shorter, i);
        assert(shorter.take(i) =~= docs.take(i));
    } else {
        assert(docs.take(i) =~= docs);
    }
}

/// The number of documents of a listing that yield a lead.
fn count_leads(docs: &Option<Vec<FirestoreDocument>>) -> (r: usize)
    ensures
        r == spec_listing_leads(*docs).len(),
{
    let mut count: usize = 0;
    match docs {
        None => {},
        Some(list) => {
            let mut i: usize = 0;
            while i < list.len()
                invariant
                    i <= list@.len(),
                    count == spec_leads(list@.take(i as int)).len(),
                    count <= i,
                decreases list@.len() - i,
            {
                proof {
                    assert(list@.take(i + 1).drop_last() =~= list@.take(i as int));
                }
                if list[i].fields.is_some() {
                    count = count + 1;
                }
                i = i + 1;
            }
            proof {
                assert(list@.take(list@.len() as int) =~= list@);
            }
        },
    }
    count
}

/// The leads of a Firestore listing, each stamped with the local time at
/// which it was read.
pub fn leads_from_documents(docs: &Option<Vec<FirestoreDocument>>) -> (r: Vec<FirestoreLead>)
    ensures
        r@.len() == spec_listing_leads(*docs).len(),
        forall|k: int| 0 <= k < r@.len() ==> lead_text(#[trigger] r@[k]) == spec_listing_leads(
            *docs,
        )[k],
{
    let n = count_leads(docs);
    let mut stamps: Vec<String> = Vec::new();
    let mut j: usize = 0;
    while j < n
        invariant
            j <= n,
            stamps@.len() == j,
        decreases n - j,
    {
        stamps.push(local_timestamp());
        j = j + 1;
    }
    leads_from_documents_stamped(docs, &stamps)
}

/// The leads `data_vault` reports for the answer of its Firestore query:
/// the leads fetched, or none where the query was skipped or failed.
pub fn vault_report(fetched: Fetch<Vec<FirestoreLead>>) -> (r: Vec<FirestoreLead>)
    ensures
        match fetched {
            Fetch::Received(leads) => r == leads,
            _ => r@.len() == 0,
        },
{
    match fetched {
        Fetch::Received(leads) => leads,
        _ => Vec::new(),
    }
}

/// What `data_vault` does next.
pub enum VaultPlan {
    /// Demo mode: answer with these fixture leads; Firestore is not queried.
    Demo(Vec<FirestoreLead>),
    /// Query Firestore when `firestore` is set, then call `vault_report`.
    Query { firestore: bool },
}

/// The fixture shape of the demo leads: two named leads stamped alike.
pub open spec fn is_demo_leads(v: Seq<FirestoreLead>) -> bool {
    &&& v.len() == 2
    &&& lead_text(v[0]) == ("demo-lead-1"@, "Jordan Lee"@, "jordan.lee@example.com"@)
    &&& lead_text(v[1]) == ("demo-lead-2"@, "Priya Nair"@, "priya.nair@example.com"@)
    &&& v[0].created_at@ == v[1].created_at@
}

/// Decides how `data_vault` proceeds: in demo mode it answers at once
/// with two fixture leads; otherwise Firestore is queried exactly when both
/// the project identifier and the API key are non-empty.
pub fn plan_data_vault(demo: bool, project_id: &str, api_key: &str) -> (r: VaultPlan)
    ensures
        demo ==> (r matches VaultPlan::Demo(v) && is_demo_leads(v@)),
        !demo ==> r == (VaultPlan::Query {
            firestore: project_id@.len() > 0 && api_key@.len() > 0,
        }),
{
    if demo {
        VaultPlan::Demo(demo_leads_at(local_timestamp()))
    } else {
        VaultPlan::Query { firestore: !project_id.is_empty() && !api_key.is_empty() }
    }
}

/// The demo leads, stamped `now`.
pub fn demo_leads_at(now: String) -> (r: Vec<FirestoreLead>)
    ensures
        is_demo_leads(r@),
        r@[0].created_at@ == now@,
{
    let first = FirestoreLead {
        id: "demo-lead-1".to_owned(),
        name: "Jordan Lee".to_owned(),
        email: "jordan.lee@example.com".to_owned(),
        created_at: now.clone(),
    };
    let second = FirestoreLead {
        id: "demo-lead-2".to_owned(),
        name: "Priya Nair".to_owned(),
        email: "priya.nair@example.com".to_owned(),
        created_at: now,
    };
    let mut leads = Vec::new();
    leads.push(first);
    leads.push(second);
    leads
}

} // verus!
