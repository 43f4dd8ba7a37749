//! Vision-capability gate for sending user entries with attachments.
use vstd::prelude::*;
use vstd::string::*;
use crate::assoc::{find_key, lemma_lookup_push, lemma_lookup_update, lookup};
use crate::entry::{ChatEntry, ChatEntryId, ChatEntryKind};

verus! {

/// Per-model image support, as recorded in the models.dev reference data.
#[derive(Debug, Clone)]
pub struct ModelsDevData {
    image_support: Vec<(String, bool)>,
}

impl ModelsDevData {
    /// Image support of a model: `Some(true)` or `Some(false)` when recorded,
    /// `None` for a model the data does not know.
    pub closed spec fn support_of(&self, model: Seq<char>) -> Option<bool> {
        lookup(self.image_support@, model)
    }

    /// Reference data that knows no model.
    pub fn new() -> (d: ModelsDevData)
        ensures
            forall|m: Seq<char>| d.support_of(m) is None,
    {
        let d = ModelsDevData { image_support: Vec::new() };
        assert forall|m: Seq<char>| d.support_of(m) is None by {
            assert(d.image_support@.len() == 0);
        }
        d
    }

    /// Records whether `model` accepts image input, replacing any earlier
    /// record for it.
    pub fn set_image_support(&mut self, model: &str, supported: bool)
        ensures
            final(self).support_of(model@) == Some(supported),
            forall|m: Seq<char>| m != model@ ==> final(self).support_of(m) == old(self).support_of(m),
    {
        match find_key(&self.image_support, model) {
            Some(i) => {
                let ghost s = self.image_support@;
                let key = self.image_support[i].0.clone();
                self.image_support.set(i, (key, supported));
                proof {
                    assert forall|m: Seq<char>|
                        #![trigger lookup(self.image_support@, m)]
                        lookup(self.image_support@, m) == if m == s[i as int].0@ {
                            Some(supported)
                        } else {
                            lookup(s, m)
                        } by {
                        assert(self.image_support@ == s.update(i as int, (s[i as int].0, supported)));
                        lemma_lookup_update(s, i as int, supported, m);
                    }
                }
            },
            None => {
                let ghost s = self.image_support@;
                let key = String::from_str(model);
                self.image_support.push((key, supported));
                proof {
                    assert forall|m: Seq<char>|
                        #![trigger lookup(self.image_support@, m)]
                        lookup(self.image_support@, m) == match lookup(s, m) {
                            Some(x) => Some(x),
                            None => if m == key@ {
                                Some(supported)
                            } else {
                                None
                            },
                        } by {
                        lemma_lookup_push(s, key, supported, m);
                    }
                }
            },
        }
    }

    /// Whether `model` is known to accept image input.
    pub fn supports_images(&self, model: &str) -> (r: Option<bool>)
        ensures
            r == self.support_of(model@),
    {
        match find_key(&self.image_support, model) {
            Some(i) => Some(self.image_support[i].1),
            None => None,
        }
    }
}

/// What follows the model id in the message of a blocked send.
pub const BLOCKED_SUFFIX: &'static str = " is not confirmed to support image input, so this attachment was not sent. Switch to a vision-capable model, or mark it image-capable in models.dev / the model cache.";

/// Whether the entry is a user message that carries attachments.
pub open spec fn has_attachments(e: ChatEntry) -> bool {
    match e.kind {
        ChatEntryKind::User { attachments, .. } => attachments@.len() > 0,
        _ => false,
    }
}

/// The error entry shown when a model is not confirmed vision-capable: it
/// names the model and points at models.dev and the model cache.
pub fn blocked_error_entry(model_id: &str, id: ChatEntryId) -> (e: ChatEntry)
    ensures
        e.kind matches ChatEntryKind::Error(t) && t@ == model_id@ + BLOCKED_SUFFIX@,
        e.id == id,
        e.pin_position is None,
        e.context_history@.len() == 0,
{
    let mut text = String::from_str(model_id);
    text.append(BLOCKED_SUFFIX);
    ChatEntry::error(id, text)
}

/// Decides whether a user entry may be dispatched to the model.
///
/// Returns `None` when the send is allowed: the entry carries no
/// attachments, no provider is configured (`model_id` is `None`), or the
/// model is confirmed image-capable. Otherwise, a known text-only or an
/// unknown model, it returns the error entry to show instead (with id
/// `error_id`).
pub fn attachment_gate(
    model_id: Option<&str>,
    entry: &ChatEntry,
    models_dev: &ModelsDevData,
    error_id: ChatEntryId,
) -> (r: Option<ChatEntry>)
    ensures
        !has_attachments(*entry) ==> r is None,
        has_attachments(*entry) && model_id is None ==> r is None,
        has_attachments(*entry) && model_id is Some ==> {
            let m = model_id.unwrap();
            if models_dev.support_of(m@) == Some(true) {
                r is None
            } else {
                &&& r is Some
                &&& r.unwrap().id == error_id
                &&& r.unwrap().kind matches ChatEntryKind::Error(t) && t@ == m@ + BLOCKED_SUFFIX@
            }
        },
{
    let carries = match &entry.kind {
        ChatEntryKind::User { attachments, .. } => attachments.len() > 0,
        _ => false,
    };
    if !carries {
        return None;
    }
    let model_id = match model_id {
        Some(m) => m,
        None => return None,
    };
    match models_dev.supports_images(model_id) {
        Some(true) => None,
        _ => Some(blocked_error_entry(model_id, error_id)),
    }
}

} // verus!
