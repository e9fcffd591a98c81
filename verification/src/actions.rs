use vstd::prelude::*;
use crate::models::ItemView;
use crate::models::UnifiedItem;
use crate::text::lowercase;
use crate::text::texts;
use crate::text::to_lowercase;
use crate::text::trim;
use crate::text::trimmed;

verus! {

/// How the remote service answered one edit request.
#[derive(Clone, Copy, Debug, PartialEq, Eq, Structural)]
pub enum EditOutcome {
    Succeeded,
    Failed,
}

/// What the caller of an overwrite batch is to do next.
#[derive(Debug)]
pub enum OverwriteAction {
    /// Ask the remote service to replace the content of item `id` by `text`,
    /// and hand back how that went.
    Edit { id: String, text: String },
    /// Every item has been tried.
    Finished { succeeded: usize, failed: usize },
}

/// An overwrite batch in progress: every item is tried once, in order, and a
/// failure never stops the batch.
#[derive(Debug)]
pub struct OverwriteBatch {
    pub items: Vec<UnifiedItem>,
    /// The replacement text.
    pub text: String,
    /// Index of the item whose edit is outstanding; the length when none is.
    pub next: usize,
    pub succeeded: usize,
    pub failed: usize,
}

/// An item's value after its content was replaced.
pub open spec fn with_content(item: ItemView, text: Seq<char>) -> ItemView {
    ItemView { content: text, ..item }
}

impl OverwriteBatch {
    /// The counters account for the items tried so far.
    pub open spec fn wf(&self) -> bool {
        &&& self.next <= self.items@.len()
        &&& self.succeeded + self.failed == self.next
    }

    /// Whether the counters account for the items tried so far.
    pub fn is_well_formed(&self) -> (r: bool)
        ensures
            r == self.wf(),
    {
        self.next <= self.items.len() && self.succeeded <= self.next && self.failed == self.next
            - self.succeeded
    }

    /// The action that the batch is waiting on: the edit of the next item, or
    /// the summary when every item has been tried.
    pub open spec fn awaits(&self, action: OverwriteAction) -> bool {
        if self.next < self.items@.len() {
            action matches OverwriteAction::Edit { id, text } && id@ == self.items@[self.next as int].id@
                && text@ == self.text@
        } else {
            action == (OverwriteAction::Finished {
                succeeded: self.succeeded,
                failed: self.failed,
            })
        }
    }

    fn pending(&self) -> (action: OverwriteAction)
        requires
            self.wf(),
        ensures
            self.awaits(action),
    {
        if self.next < self.items.len() {
            OverwriteAction::Edit { id: self.items[self.next].id.clone(), text: self.text.clone() }
        } else {
            OverwriteAction::Finished { succeeded: self.succeeded, failed: self.failed }
        }
    }

    /// Begins an overwrite of `items` with `overwrite_text` and says what to
    /// do first.
    pub fn start(items: Vec<UnifiedItem>, overwrite_text: &str) -> (r: (OverwriteBatch, OverwriteAction))
        ensures
            r.0.wf(),
            r.0.items == items,
            r.0.text@ == overwrite_text@,
            r.0.next == 0,
            r.0.succeeded == 0,
            r.0.failed == 0,
            r.0.awaits(r.1),
    {
        let batch = OverwriteBatch {
            items,
            text: overwrite_text.to_owned(),
            next: 0,
            succeeded: 0,
            failed: 0,
        };
        let action = batch.pending();
        (batch, action)
    }

    /// Hands the items back, with the contents that the batch replaced.
    pub fn into_items(self) -> (items: Vec<UnifiedItem>)
        ensures
            items == self.items,
    {
        self.items
    }
}

/// Records how the outstanding edit went and decides what comes next.
///
/// On success the item's content becomes the replacement text and the
/// success count grows; on failure the item stays as it is and the failure
/// count grows. Either way the batch moves on to the next item. Once every
/// item has been tried, an outcome changes nothing and the summary is given
/// again.
pub fn handle_overwrite_action(batch: &mut OverwriteBatch, outcome: EditOutcome) -> (action:
    OverwriteAction)
    requires
        old(batch).wf(),
    ensures
        final(batch).wf(),
        final(batch).text == old(batch).text,
        final(batch).items@.len() == old(batch).items@.len(),
        final(batch).awaits(action),
        old(batch).next == old(batch).items@.len() ==> *final(batch) == *old(batch),
        old(batch).next < old(batch).items@.len() ==> {
            let at = old(batch).next as int;
            &&& final(batch).next == old(batch).next + 1
            &&& forall|k: int|
                0 <= k < old(batch).items@.len() && k != at ==> final(batch).items@[k] == old(
                    batch,
                ).items@[k]
            &&& match outcome {
                EditOutcome::Succeeded => {
                    &&& final(batch).items@[at]@ == with_content(
                        old(batch).items@[at]@,
                        old(batch).text@,
                    )
                    &&& final(batch).succeeded == old(batch).succeeded + 1
                    &&& final(batch).failed == old(batch).failed
                },
                EditOutcome::Failed => {
                    &&& final(batch).items@[at] == old(batch).items@[at]
                    &&& final(batch).succeeded == old(batch).succeeded
                    &&& final(batch).failed == old(batch).failed + 1
                },
            }
        },
{
    if batch.next < batch.items.len() {
        match outcome {
            EditOutcome::Succeeded => {
                let replacement = batch.text.clone();
                batch.items[batch.next].content = replacement;
                batch.succeeded = batch.succeeded + 1;
            },
            EditOutcome::Failed => {
                batch.failed = batch.failed + 1;
            },
        }
        batch.next = batch.next + 1;
    }
    batch.pending()
}

/// How one delete request ended.
#[derive(Clone, Copy, Debug, PartialEq, Eq, Structural)]
pub enum DeleteReply {
    /// The remote service answered with this HTTP status.
    Status { code: u16 },
    /// The request did not reach the service, or no answer came back.
    TransportError,
}

impl DeleteReply {
    /// Whether the reply confirms the deletion: an HTTP status from 200 to
    /// 299.
    pub open spec fn is_success(self) -> bool {
        self matches DeleteReply::Status { code } && 200 <= code < 300
    }

    /// Whether the reply confirms the deletion.
    pub fn confirms_deletion(&self) -> (r: bool)
        ensures
            r == self.is_success(),
    {
        match self {
            DeleteReply::Status { code } => 200 <= *code && *code < 300,
            DeleteReply::TransportError => false,
        }
    }
}

/// Whether a line of input confirms a deletion: surrounding whitespace and
/// letter case aside, it must read `yes`.
pub open spec fn is_confirmation(line: Seq<char>) -> bool {
    lowercase(trimmed(line)) == "yes"@
}

/// Whether an answer, already trimmed and lower-cased, reads `yes`.
pub fn affirms(answer: &str) -> (r: bool)
    ensures
        r == (answer@ == "yes"@),
{
    let given = answer.to_owned();
    let yes = "yes".to_owned();
    given == yes
}

/// Decides whether a line of input confirms the deletion of a batch.
pub fn confirms(line: &str) -> (r: bool)
    ensures
        r == is_confirmation(line@),
{
    let stripped = trim(line);
    let folded = to_lowercase(stripped.as_str());
    affirms(folded.as_str())
}

/// Where a deletion batch stands.
#[derive(Clone, Copy, Debug, PartialEq, Eq, Structural)]
pub enum DeleteStage {
    /// The confirmation for the whole batch was asked for.
    Confirming,
    /// A delete request is outstanding.
    Deleting,
    /// Nothing is outstanding.
    Finished,
}

/// What came back for the action that a deletion batch is waiting on.
#[derive(Debug)]
pub enum DeleteEvent {
    /// The line that was read in answer to the confirmation prompt.
    Answer { line: String },
    /// The end of the outstanding delete request.
    Reply { reply: DeleteReply },
}

/// What the caller of a deletion batch is to do next.
#[derive(Debug)]
pub enum DeleteAction {
    /// Ask once whether all `count` items are to be deleted, and hand back
    /// the line that was read.
    Confirm { count: usize },
    /// Ask the remote service to delete item `id` by a form post to `url`
    /// with the field `id`, and hand back the reply.
    Delete { url: String, id: String },
    /// The batch is over.
    Finished { deleted: usize, failed: usize },
    /// The event does not answer the outstanding action; the batch is as it
    /// was.
    Rejected,
}

/// A deletion batch in progress.
#[derive(Debug)]
pub struct DeleteBatch {
    /// The identifiers of the items to delete, in order.
    pub ids: Vec<String>,
    pub stage: DeleteStage,
    /// Index of the item whose deletion is outstanding.
    pub next: usize,
    pub deleted: usize,
    pub failed: usize,
}

/// The address that delete requests go to.
pub open spec fn delete_url() -> Seq<char> {
    "https://oauth.reddit.com/"@ + "api/del"@
}

/// The identifiers of a sequence of items.
pub open spec fn item_ids(items: Seq<UnifiedItem>) -> Seq<Seq<char>> {
    items.map_values(|item: UnifiedItem| item.id@)
}

impl DeleteBatch {
    /// The counters account for the requests made so far, and a request is
    /// outstanding only for an item of the batch.
    pub open spec fn wf(&self) -> bool {
        &&& self.next <= self.ids@.len()
        &&& self.deleted + self.failed == self.next
        &&& self.stage == DeleteStage::Confirming ==> self.next == 0 && self.ids@.len() > 0
        &&& self.stage == DeleteStage::Deleting ==> self.next < self.ids@.len()
    }

    /// Whether the batch is in a state that [`DeleteBatch::start`] and
    /// [`handle_delete_action`] lead to.
    pub fn is_well_formed(&self) -> (r: bool)
        ensures
            r == self.wf(),
    {
        let count = self.ids.len();
        let counted = self.next <= count && self.deleted <= self.next && self.failed == self.next
            - self.deleted;
        counted && match self.stage {
            DeleteStage::Confirming => self.next == 0 && count > 0,
            DeleteStage::Deleting => self.next < count,
            DeleteStage::Finished => true,
        }
    }

    /// The action that the batch is waiting on.
    pub open spec fn awaits(&self, action: DeleteAction) -> bool {
        match self.stage {
            DeleteStage::Confirming => action == (DeleteAction::Confirm { count: self.ids@.len() as usize }),
            DeleteStage::Deleting => action matches DeleteAction::Delete { url, id } && url@
                == delete_url() && id@ == self.ids@[self.next as int]@,
            DeleteStage::Finished => action == (DeleteAction::Finished {
                deleted: self.deleted,
                failed: self.failed,
            }),
        }
    }

    fn pending(&self) -> (action: DeleteAction)
        requires
            self.wf(),
        ensures
            self.awaits(action),
    {
        match self.stage {
            DeleteStage::Confirming => DeleteAction::Confirm { count: self.ids.len() },
            DeleteStage::Deleting => DeleteAction::Delete {
                url: roux::util::url::build_oauth("api/del"),
                id: self.ids[self.next].clone(),
            },
            DeleteStage::Finished => DeleteAction::Finished {
                deleted: self.deleted,
                failed: self.failed,
            },
        }
    }

    /// Begins the deletion of `items` and says what to do first: nothing for
    /// an empty batch, the first request where the confirmation is skipped,
    /// the confirmation prompt otherwise.
    pub fn start(items: &Vec<UnifiedItem>, skip_confirmation: bool) -> (r: (
        DeleteBatch,
        DeleteAction,
    ))
        ensures
            r.0.wf(),
            texts(r.0.ids@) == item_ids(items@),
            r.0.ids@.len() == items@.len(),
            r.0.next == 0,
            r.0.deleted == 0,
            r.0.failed == 0,
            r.0.stage == if items@.len() == 0 {
                DeleteStage::Finished
            } else if skip_confirmation {
                DeleteStage::Deleting
            } else {
                DeleteStage::Confirming
            },
            r.0.awaits(r.1),
    {
        let mut ids: Vec<String> = Vec::new();
        let mut i: usize = 0;
        while i < items.len()
            invariant
                i <= items.len(),
                texts(ids@) == item_ids(items@.take(i as int)),
            decreases items.len() - i,
        {
            let ghost before = texts(ids@);
            let id = items[i].id.clone();
            ids.push(id);
            assert(texts(ids@) == before.push(id@));
            assert(items@.take(i + 1) == items@.take(i as int).push(items@[i as int]));
            i += 1;
        }
        assert(items@.take(items.len() as int) == items@);
        let stage = if items.len() == 0 {
            DeleteStage::Finished
        } else if skip_confirmation {
            DeleteStage::Deleting
        } else {
            DeleteStage::Confirming
        };
        assert(ids@.len() == texts(ids@).len());
        let batch = DeleteBatch { ids, stage, next: 0, deleted: 0, failed: 0 };
        let action = batch.pending();
        (batch, action)
    }
}

/// Takes the answer to the outstanding action of a deletion batch and
/// decides what comes next.
///
/// One confirmation covers the whole batch: an answer that does not confirm
/// ends the batch with no request made. Once confirmed, every item gets one
/// delete request, in order; a reply that does not confirm the deletion is
/// counted as failed and does not stop the batch. An event that does not
/// answer the outstanding action changes nothing.
pub fn handle_delete_action(batch: &mut DeleteBatch, event: DeleteEvent) -> (action: DeleteAction)
    requires
        old(batch).wf(),
    ensures
        final(batch).wf(),
        final(batch).ids == old(batch).ids,
        match (old(batch).stage, event) {
            (DeleteStage::Confirming, DeleteEvent::Answer { line }) => {
                &&& final(batch).next == 0
                &&& final(batch).deleted == 0
                &&& final(batch).failed == 0
                &&& final(batch).stage == if is_confirmation(line@) {
                    DeleteStage::Deleting
                } else {
                    DeleteStage::Finished
                }
                &&& final(batch).awaits(action)
            },
            (DeleteStage::Deleting, DeleteEvent::Reply { reply }) => {
                &&& final(batch).next == old(batch).next + 1
                &&& final(batch).deleted == old(batch).deleted + if reply.is_success() {
                    1int
                } else {
                    0int
                }
                &&& final(batch).failed == old(batch).failed + if reply.is_success() {
                    0int
                } else {
                    1int
                }
                &&& final(batch).stage == if final(batch).next < final(batch).ids@.len() {
                    DeleteStage::Deleting
                } else {
                    DeleteStage::Finished
                }
                &&& final(batch).awaits(action)
            },
            _ => action is Rejected && *final(batch) == *old(batch),
        },
{
    match (batch.stage, event) {
        (DeleteStage::Confirming, DeleteEvent::Answer { line }) => {
            if confirms(line.as_str()) {
                batch.stage = DeleteStage::Deleting;
            } else {
                batch.stage = DeleteStage::Finished;
            }
            batch.pending()
        },
        (DeleteStage::Deleting, DeleteEvent::Reply { reply }) => {
            let count = batch.ids.len();
            if reply.confirms_deletion() {
                batch.deleted = batch.deleted + 1;
            } else {
                batch.failed = batch.failed + 1;
            }
            batch.next = batch.next + 1;
            if batch.next >= count {
                batch.stage = DeleteStage::Finished;
            }
            batch.pending()
        },
        _ => DeleteAction::Rejected,
    }
}

} // verus!
