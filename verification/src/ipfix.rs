//! The two ends of the template path and the decoder between them: what the
//! state-database watcher makes of a publication, and the actor that owns
//! the active template set and turns payloads into sample batches.

use vstd::prelude::*;
use crate::counts::{add_counts, spec_add_counts};
use crate::decoder::{
    decode_message,
    spec_decode_message,
    DecodeError,
    DecodedMessage,
    DecodedView,
    DropCounts,
};
use crate::sai::{BatchView, SAIStats};
use crate::store::{
    clone_names,
    spec_publish,
    spec_update_views,
    spec_withdraw,
    IpfixTemplateUpdate,
    TemplateStore,
    UpdateView,
};
use crate::template::{
    parse_template_message,
    spec_parse_template_message,
    spec_template_views,
    IpfixTemplate,
    TemplateError,
    TemplateView,
};
use crate::text::spec_texts;

verus! {

/// The update that announces `template` for `key` with the labels `names`.
pub open spec fn spec_update_of(key: Seq<char>, template: TemplateView, names: Seq<Seq<char>>)
    -> UpdateView {
    UpdateView { publisher_key: key, template, object_names: names }
}

/// The updates that announce `templates`, one each and in their order.
pub open spec fn spec_updates_of(
    key: Seq<char>,
    templates: Seq<TemplateView>,
    names: Seq<Seq<char>>,
) -> Seq<UpdateView> {
    Seq::new(templates.len(), |i: int| spec_update_of(key, templates[i], names))
}

/// Turns one publication of the state database into template updates: one
/// for each template record of the blob, in wire order, each with the
/// publisher's key and a copy of the label table.
///
/// A blob that is no valid template message gives the error and no update,
/// so that what was published before stays active.
pub fn template_updates(publisher_key: &String, blob: &[u8], object_names: &Vec<String>) -> (r:
    Result<Vec<IpfixTemplateUpdate>, TemplateError>)
    ensures
        match r {
            Ok(updates) => match spec_parse_template_message(blob@) {
                Ok(templates) => spec_update_views(updates@) == spec_updates_of(
                    publisher_key@,
                    templates,
                    spec_texts(object_names@),
                ),
                Err(_) => false,
            },
            Err(e) => spec_parse_template_message(blob@) == Err::<Seq<TemplateView>, TemplateError>(
                e,
            ),
        },
{
    let templates: Vec<IpfixTemplate> = match parse_template_message(blob) {
        Ok(templates) => templates,
        Err(e) => {
            return Err(e);
        },
    };
    let ghost wanted = spec_updates_of(
        publisher_key@,
        spec_template_views(templates@),
        spec_texts(object_names@),
    );
    let mut updates: Vec<IpfixTemplateUpdate> = Vec::new();
    let mut i: usize = 0;
    while i < templates.len()
        invariant
            i <= templates.len(),
            updates.len() == i,
            wanted == spec_updates_of(
                publisher_key@,
                spec_template_views(templates@),
                spec_texts(object_names@),
            ),
            spec_update_views(updates@) == wanted.subrange(0, i as int),
        decreases templates.len() - i,
    {
        let update = IpfixTemplateUpdate {
            publisher_key: publisher_key.clone(),
            template: templates[i].clone(),
            object_names: clone_names(object_names),
        };
        updates.push(update);
        i += 1;
        assert(spec_update_views(updates@) =~= wanted.subrange(0, i as int));
    }
    assert(spec_update_views(updates@) =~= wanted);
    Ok(updates)
}

/// What the watcher sends to the decoder.
#[derive(Debug)]
pub enum TemplateMessage {
    /// A template was published, or published again.
    Publish(IpfixTemplateUpdate),
    /// The publisher with this key withdrew its templates.
    Withdraw(String),
}

/// What the decoder has counted since it was made. Each count stops at
/// `u64::MAX`.
#[derive(Debug, Clone, Copy, PartialEq, Eq, Structural)]
pub struct DecoderStats {
    /// Payloads decoded, with or without a batch to show for it.
    pub payloads_decoded: u64,
    /// Payloads dropped as a whole.
    pub payloads_dropped: u64,
    /// Decoded payloads that gave no batch, for want of an observation time.
    pub batches_without_time: u64,
    /// What was dropped inside the decoded payloads.
    pub drops: DropCounts,
}

/// The drops of a message added to those counted before.
pub open spec fn spec_add_drops(total: DropCounts, more: DropCounts) -> DropCounts {
    DropCounts {
        sets_without_template: spec_add_counts(
            total.sets_without_template,
            more.sets_without_template,
        ),
        malformed_sets: spec_add_counts(total.malformed_sets, more.malformed_sets),
        rejected_fields: spec_add_counts(total.rejected_fields, more.rejected_fields),
        unresolved_labels: spec_add_counts(total.unresolved_labels, more.unresolved_labels),
    }
}

/// The batch that a decoded message gives: none without an observation
/// time, for no batch goes out with the time zero.
pub open spec fn spec_batch_of(decoded: DecodedView) -> Option<BatchView> {
    if decoded.observation_time_ns == 0 {
        None
    } else {
        Some(
            BatchView {
                observation_time_ns: decoded.observation_time_ns,
                samples: decoded.samples,
            },
        )
    }
}

/// The counts after a payload was handled.
pub open spec fn spec_stats_after(stats: DecoderStats, outcome: Result<DecodedView, DecodeError>)
    -> DecoderStats {
    match outcome {
        Err(_) => DecoderStats {
            payloads_decoded: stats.payloads_decoded,
            payloads_dropped: spec_add_counts(stats.payloads_dropped, 1),
            batches_without_time: stats.batches_without_time,
            drops: stats.drops,
        },
        Ok(decoded) => DecoderStats {
            payloads_decoded: spec_add_counts(stats.payloads_decoded, 1),
            payloads_dropped: stats.payloads_dropped,
            batches_without_time: if decoded.observation_time_ns == 0 {
                spec_add_counts(stats.batches_without_time, 1)
            } else {
                stats.batches_without_time
            },
            drops: spec_add_drops(stats.drops, decoded.drops),
        },
    }
}

impl DecodedMessage {
    /// The batch to send on, if the message has an observation time.
    pub fn into_batch(self) -> (r: Option<SAIStats>)
        ensures
            match r {
                Some(batch) => spec_batch_of(self@) == Some(batch@),
                None => spec_batch_of(self@) is None,
            },
            r matches Some(batch) ==> batch.observation_time_ns != 0,
    {
        if self.observation_time_ns == 0 {
            None
        } else {
            Some(SAIStats { observation_time_ns: self.observation_time_ns, samples: self.samples })
        }
    }
}

/// The decoder: the active template set and the counts.
pub struct IpfixDecoder {
    store: TemplateStore,
    stats: DecoderStats,
}

impl IpfixDecoder {
    /// The active templates, in the order in which their keys were first
    /// published.
    pub closed spec fn templates(&self) -> Seq<UpdateView> {
        self.store@
    }

    /// The counts.
    pub closed spec fn counted(&self) -> DecoderStats {
        self.stats
    }

    /// Well-formedness: no two active templates share a publisher key and a
    /// template id. Every decoder that `new` made and the methods below
    /// changed is well-formed.
    pub closed spec fn wf(&self) -> bool {
        self.store.wf()
    }

    /// A decoder without templates that has counted nothing.
    pub fn new() -> (decoder: Self)
        ensures
            decoder.wf(),
            decoder.templates() == Seq::<UpdateView>::empty(),
            decoder.counted() == (DecoderStats {
                payloads_decoded: 0,
                payloads_dropped: 0,
                batches_without_time: 0,
                drops: DropCounts {
                    sets_without_template: 0,
                    malformed_sets: 0,
                    rejected_fields: 0,
                    unresolved_labels: 0,
                },
            }),
    {
        IpfixDecoder {
            store: TemplateStore::new(),
            stats: DecoderStats {
                payloads_decoded: 0,
                payloads_dropped: 0,
                batches_without_time: 0,
                drops: DropCounts {
                    sets_without_template: 0,
                    malformed_sets: 0,
                    rejected_fields: 0,
                    unresolved_labels: 0,
                },
            },
        }
    }

    /// The counts.
    pub fn stats(&self) -> (stats: DecoderStats)
        ensures
            stats == self.counted(),
    {
        self.stats
    }

    /// The active template set.
    pub fn store(&self) -> (store: &TemplateStore)
        ensures
            store@ == self.templates(),
    {
        &self.store
    }

    /// Takes a message of the watcher in: a published template replaces the
    /// one with its key and id or is added; a withdrawal removes the
    /// templates of its key. The counts stay.
    pub fn handle_template(&mut self, message: TemplateMessage)
        requires
            old(self).wf(),
        ensures
            final(self).wf(),
            final(self).counted() == old(self).counted(),
            match message {
                TemplateMessage::Publish(update) => final(self).templates() == spec_publish(
                    old(self).templates(),
                    update@,
                ),
                TemplateMessage::Withdraw(key) => final(self).templates() == spec_withdraw(
                    old(self).templates(),
                    key@,
                ),
            },
    {
        match message {
            TemplateMessage::Publish(update) => {
                self.store.publish(update);
            },
            TemplateMessage::Withdraw(key) => {
                self.store.withdraw(&key);
            },
        }
    }

    /// Decodes one payload and counts what came of it. The templates stay
    /// as they are, whatever the payload holds.
    ///
    /// The result is the batch to send on: none where the payload was
    /// dropped as a whole, and none where it carried no observation time.
    pub fn handle_payload(&mut self, payload: &[u8]) -> (r: Option<SAIStats>)
        requires
            old(self).wf(),
        ensures
            final(self).wf(),
            final(self).templates() == old(self).templates(),
            final(self).counted() == spec_stats_after(
                old(self).counted(),
                spec_decode_message(old(self).templates(), payload@),
            ),
            match spec_decode_message(old(self).templates(), payload@) {
                Err(_) => r is None,
                Ok(decoded) => match r {
                    Some(batch) => spec_batch_of(decoded) == Some(batch@),
                    None => spec_batch_of(decoded) is None,
                },
            },
            r matches Some(batch) ==> batch.observation_time_ns != 0,
    {
        match decode_message(&self.store, payload) {
            Err(_) => {
                self.stats.payloads_dropped = add_counts(self.stats.payloads_dropped, 1);
                None
            },
            Ok(decoded) => {
                self.stats.payloads_decoded = add_counts(self.stats.payloads_decoded, 1);
                if decoded.observation_time_ns == 0 {
                    self.stats.batches_without_time = add_counts(
                        self.stats.batches_without_time,
                        1,
                    );
                }
                let drops = decoded.drops;
                self.stats.drops = DropCounts {
                    sets_without_template: add_counts(
                        self.stats.drops.sets_without_template,
                        drops.sets_without_template,
                    ),
                    malformed_sets: add_counts(
                        self.stats.drops.malformed_sets,
                        drops.malformed_sets,
                    ),
                    rejected_fields: add_counts(
                        self.stats.drops.rejected_fields,
                        drops.rejected_fields,
                    ),
                    unresolved_labels: add_counts(
                        self.stats.drops.unresolved_labels,
                        drops.unresolved_labels,
                    ),
                };
                decoded.into_batch()
            },
        }
    }
}

} // verus!
