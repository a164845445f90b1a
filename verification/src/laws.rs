//! Properties that hold of every entry, every file and every run.

use crate::cells::cell_uint;
use crate::json::{JsonNumber, JsonView, NumberView};
use crate::lines::{is_white_space, leading_white, trailing_white, trimmed, without_nul};
use crate::parse::{
    empty_state, entry_envelope, entry_row, metadata_sid, next_first_ts, next_last_ts, next_state,
    read_prefix, rows_of, run, text_less, file_state, LineEvent, RowsView, StateView,
};
use crate::types::{
    AssistantContentBlock, AssistantEntry, AttachmentData, AttachmentEntry, Entry, UserContentBlock,
    UserEntry,
};
use crate::variants::{
    assistant_block_row, assistant_block_rows, assistant_row, attachment_row, child_table,
    diagnostics_rows, hook_rows, iteration_rows, model_text, skill_rows, tool_uses, user_block_row,
    user_block_rows, user_blocks, user_block_unknowns, user_row, user_unknowns, assistant_unknowns,
    entry_unknowns, variant_rows,
};
use vstd::prelude::*;

verus! {

// ─── The shape of rows ───────────────────────────────────────────────────

/// The table an entry's variant row goes to, with its number of columns.
pub open spec fn variant_table(e: Entry) -> (Seq<char>, int) {
    match e {
        Entry::User(_) => ("user_entries"@, 13),
        Entry::Assistant(_) => ("assistant_entries"@, 26),
        Entry::System(_) => ("system_entries"@, 28),
        Entry::Attachment(_) => ("attachment_entries"@, 47),
        Entry::Progress(_) => ("progress_entries"@, 25),
        Entry::PermissionMode(_) => ("permission_mode_entries"@, 3),
        Entry::LastPrompt(_) => ("last_prompt_entries"@, 4),
        Entry::AiTitle(_) => ("ai_title_entries"@, 3),
        Entry::CustomTitle(_) => ("custom_title_entries"@, 3),
        Entry::AgentName(_) => ("agent_name_entries"@, 3),
        Entry::AgentColor(_) => ("agent_color_entries"@, 3),
        Entry::AgentSetting(_) => ("agent_setting_entries"@, 3),
        Entry::Tag(_) => ("tag_entries"@, 3),
        Entry::Summary(_) => ("summary_entries"@, 4),
        Entry::TaskSummary(_) => ("task_summary_entries"@, 4),
        Entry::PrLink(_) => ("pr_link_entries"@, 6),
        Entry::Mode(_) => ("mode_entries"@, 3),
        Entry::WorktreeState(_) => ("worktree_state_entries"@, 3),
        Entry::ContentReplacement(_) => ("content_replacement_entries"@, 4),
        Entry::FileHistorySnapshot(_) => ("file_history_snapshot_entries"@, 4),
        Entry::AttributionSnapshot(_) => ("attribution_snapshot_entries"@, 10),
        Entry::QueueOperation(_) => ("queue_operation_entries"@, 5),
        Entry::ContextCollapseCommit(_) => ("marble_origami_commit_entries"@, 8),
        Entry::ContextCollapseSnapshot(_) => ("marble_origami_snapshot_entries"@, 5),
        Entry::SpeculationAccept(_) => ("speculation_accept_entries"@, 3),
        Entry::Unknown => (Seq::empty(), 0),
    }
}

/// The child tables an entry may fill, in the order its rows list them, each
/// with its number of columns.
pub open spec fn child_tables(e: Entry) -> Seq<(Seq<char>, int)> {
    match e {
        Entry::User(_) => seq![("user_content_blocks"@, 10)],
        Entry::Assistant(_) => seq![("assistant_content_blocks"@, 11), ("assistant_usage_iterations"@, 9)],
        Entry::System(_) => seq![("system_hook_infos"@, 4)],
        Entry::Attachment(_) => seq![("attachment_diagnostics_files"@, 4), ("attachment_invoked_skills"@, 4)],
        _ => Seq::empty(),
    }
}

/// Rows of `width` cells each, with the `entry_id` placeholder (NULL) at
/// index 0.
pub open spec fn rows_of_width(rows: Seq<Seq<JsonView>>, width: int) -> bool {
    forall|j: int| 0 <= j < rows.len() ==> (#[trigger] rows[j]).len() == width && rows[j][0] == JsonView::Null
}

/// The rows of an entry fit their tables: the `entries` row has its 25
/// columns, the variant row goes to the entry's table with that table's
/// width, and each child table listed is one of the entry's, with at least
/// one row, every row of the table's width; every row has NULL at index 0.
pub open spec fn rows_fit(e: Entry, r: RowsView) -> bool {
    &&& rows_of_width(seq![r.entry], 25)
    &&& r.variant matches Some(v) && v.0 == variant_table(e).0 && rows_of_width(seq![v.1], variant_table(e).1)
    &&& forall|k: int|
        #![trigger r.children[k]]
        0 <= k < r.children.len() ==> exists|i: int|
            #![trigger child_tables(e)[i]]
            0 <= i < child_tables(e).len() && child_tables(e)[i].0 == r.children[k].0
                && r.children[k].1.len() > 0 && rows_of_width(r.children[k].1, child_tables(e)[i].1)
}

/// The position cell (index 1) of a child row; -1 when it holds no position.
pub open spec fn position(row: Seq<JsonView>) -> int {
    match row[1] {
        JsonView::Number(NumberView::PosInt(p)) => p as int,
        _ => -1,
    }
}

/// The rows carry positions, strictly increasing from the first row on.
pub open spec fn positions_increasing(rows: Seq<Seq<JsonView>>) -> bool {
    &&& forall|j: int| 0 <= j < rows.len() ==> position(#[trigger] rows[j]) >= 0
    &&& forall|a: int, b: int| 0 <= a < b < rows.len() ==> position(#[trigger] rows[a]) < position(#[trigger] rows[b])
}

proof fn lemma_user_block_rows(blocks: Seq<UserContentBlock>, n: int)
    requires
        0 <= n <= blocks.len(),
    ensures
        rows_of_width(user_block_rows(blocks, n), 10),
        positions_increasing(user_block_rows(blocks, n)),
        forall|j: int| 0 <= j < user_block_rows(blocks, n).len() ==> position(#[trigger] user_block_rows(blocks, n)[j]) < n,
    decreases n,
{
    if n > 0 {
        lemma_user_block_rows(blocks, n - 1);
        let prev = user_block_rows(blocks, n - 1);
        match user_block_row(blocks[n - 1], n - 1) {
            Some(r) => {
                let cur = prev.push(r);
                assert(cur == user_block_rows(blocks, n));
                assert(r.len() == 10 && r[0] == JsonView::Null && position(r) == n - 1);
                assert forall|j: int| 0 <= j < cur.len() implies (#[trigger] cur[j]).len() == 10 && cur[j][0] == JsonView::Null
                    && position(cur[j]) >= 0 && position(cur[j]) < n by {
                    if j < prev.len() {
                        assert(cur[j] == prev[j]);
                    }
                }
                assert forall|a: int, b: int| 0 <= a < b < cur.len() implies position(#[trigger] cur[a]) < position(#[trigger] cur[b]) by {
                    assert(cur[a] == prev[a]);
                    if b < prev.len() {
                        assert(cur[b] == prev[b]);
                    }
                }
            },
            None => {},
        }
    }
}

proof fn lemma_assistant_block_rows(blocks: Seq<AssistantContentBlock>, n: int)
    requires
        0 <= n <= blocks.len(),
    ensures
        rows_of_width(assistant_block_rows(blocks, n), 11),
        positions_increasing(assistant_block_rows(blocks, n)),
        forall|j: int| 0 <= j < assistant_block_rows(blocks, n).len() ==> position(#[trigger] assistant_block_rows(blocks, n)[j]) < n,
    decreases n,
{
    if n > 0 {
        lemma_assistant_block_rows(blocks, n - 1);
        let prev = assistant_block_rows(blocks, n - 1);
        match assistant_block_row(blocks[n - 1], n - 1) {
            Some(r) => {
                let cur = prev.push(r);
                assert(cur == assistant_block_rows(blocks, n));
                assert(r.len() == 11 && r[0] == JsonView::Null && position(r) == n - 1);
                assert forall|j: int| 0 <= j < cur.len() implies (#[trigger] cur[j]).len() == 11 && cur[j][0] == JsonView::Null
                    && position(cur[j]) >= 0 && position(cur[j]) < n by {
                    if j < prev.len() {
                        assert(cur[j] == prev[j]);
                    }
                }
                assert forall|a: int, b: int| 0 <= a < b < cur.len() implies position(#[trigger] cur[a]) < position(#[trigger] cur[b]) by {
                    assert(cur[a] == prev[a]);
                    if b < prev.len() {
                        assert(cur[b] == prev[b]);
                    }
                }
            },
            None => {},
        }
    }
}

proof fn lemma_entry_row(e: Entry, line_no: int, file_path: Seq<char>)
    ensures
        rows_of_width(seq![entry_row(e, line_no, file_path)], 25),
{
    let r = entry_row(e, line_no, file_path);
    assert(seq![r][0] == r);
}

/// Each row of `rows` fits `width` and the rows' positions increase.
proof fn lemma_indexed_rows(rows: Seq<Seq<JsonView>>, width: int)
    requires
        forall|j: int| 0 <= j < rows.len() ==> (#[trigger] rows[j]).len() == width && rows[j][0] == JsonView::Null && rows[j][1] == JsonView::Number(NumberView::PosInt(j as nat)),
    ensures
        rows_of_width(rows, width),
        positions_increasing(rows),
{
}

proof fn lemma_variant_row(e: Entry, cost: Option<JsonNumber>)
    requires
        !(e is Unknown),
    ensures
        variant_rows(e, cost).0 matches Some(v) && v.0 == variant_table(e).0 && rows_of_width(seq![v.1], variant_table(e).1),
{
    let v = variant_rows(e, cost).0.unwrap();
    assert(seq![v.1][0] == v.1);
    if let Entry::Attachment(ae) = e {
        lemma_attachment_row(ae);
    }
}

proof fn lemma_attachment_row(ae: AttachmentEntry)
    ensures
        attachment_row(ae).len() == 47,
        attachment_row(ae)[0] == JsonView::Null,
{
    match ae.attachment {
        AttachmentData::HookSuccess(h) => {},
        AttachmentData::HookNonBlockingError(h) => {},
        AttachmentData::HookBlockingError(h) => {},
        AttachmentData::HookCancelled(h) => {},
        _ => {},
    }
}

proof fn lemma_children(e: Entry, cost: Option<JsonNumber>)
    requires
        !(e is Unknown),
    ensures
        ({
            let c = variant_rows(e, cost).1;
            forall|k: int|
                #![trigger c[k]]
                0 <= k < c.len() ==> exists|i: int|
                    #![trigger child_tables(e)[i]]
                    0 <= i < child_tables(e).len() && child_tables(e)[i].0 == c[k].0 && c[k].1.len() > 0
                        && rows_of_width(c[k].1, child_tables(e)[i].1) && positions_increasing(c[k].1)
        }),
{
    let c = variant_rows(e, cost).1;
    let t = child_tables(e);
    match e {
        Entry::User(ue) => {
            let bs = user_blocks(ue);
            lemma_user_block_rows(bs, bs.len() as int);
            assert forall|k: int| #![trigger c[k]] 0 <= k < c.len() implies exists|i: int|
                #![trigger t[i]]
                0 <= i < t.len() && t[i].0 == c[k].0 && c[k].1.len() > 0
                    && rows_of_width(c[k].1, t[i].1) && positions_increasing(c[k].1) by {
                assert(t[0].0 == c[k].0);
            }
        },
        Entry::Assistant(ae) => {
            let bs = ae.message.content@;
            lemma_assistant_block_rows(bs, bs.len() as int);
            let c1 = child_table("assistant_content_blocks"@, assistant_block_rows(bs, bs.len() as int));
            let c2 = child_table("assistant_usage_iterations"@, iteration_rows(ae.message.usage));
            lemma_indexed_rows(iteration_rows(ae.message.usage), 9);
            assert(c == c1 + c2);
            assert forall|k: int| #![trigger c[k]] 0 <= k < c.len() implies exists|i: int|
                #![trigger t[i]]
                0 <= i < t.len() && t[i].0 == c[k].0 && c[k].1.len() > 0
                    && rows_of_width(c[k].1, t[i].1) && positions_increasing(c[k].1) by {
                if k < c1.len() {
                    assert(c[k] == c1[k]);
                    assert(t[0].0 == c[k].0);
                } else {
                    assert(c[k] == c2[k - c1.len()]);
                    assert(t[1].0 == c[k].0);
                }
            }
        },
        Entry::System(se) => {
            lemma_indexed_rows(hook_rows(se), 4);
            assert forall|k: int| #![trigger c[k]] 0 <= k < c.len() implies exists|i: int|
                #![trigger t[i]]
                0 <= i < t.len() && t[i].0 == c[k].0 && c[k].1.len() > 0
                    && rows_of_width(c[k].1, t[i].1) && positions_increasing(c[k].1) by {
                assert(t[0].0 == c[k].0);
            }
        },
        Entry::Attachment(ae) => {
            let c1 = child_table("attachment_diagnostics_files"@, diagnostics_rows(ae));
            let c2 = child_table("attachment_invoked_skills"@, skill_rows(ae));
            lemma_indexed_rows(diagnostics_rows(ae), 4);
            lemma_indexed_rows(skill_rows(ae), 4);
            assert(c == c1 + c2);
            assert forall|k: int| #![trigger c[k]] 0 <= k < c.len() implies exists|i: int|
                #![trigger t[i]]
                0 <= i < t.len() && t[i].0 == c[k].0 && c[k].1.len() > 0
                    && rows_of_width(c[k].1, t[i].1) && positions_increasing(c[k].1) by {
                if k < c1.len() {
                    assert(c[k] == c1[k]);
                    assert(t[0].0 == c[k].0);
                } else {
                    assert(c[k] == c2[k - c1.len()]);
                    assert(t[1].0 == c[k].0);
                }
            }
        },
        _ => {},
    }
}

/// Every row built for an entry (not of unknown type) fits its table: the
/// `entries` row has the 25 columns of `entries`, the variant row goes to the
/// entry's own table with that table's width, and each child table listed is
/// one of the entry's own, is non-empty, and has rows of its width; every row
/// holds the `entry_id` placeholder, NULL, at index 0.
pub proof fn lemma_rows_fit_tables(e: Entry, line_no: int, file_path: Seq<char>, cost: Option<JsonNumber>)
    requires
        !(e is Unknown),
    ensures
        rows_fit(e, rows_of(e, line_no, file_path, cost)),
{
    lemma_entry_row(e, line_no, file_path);
    lemma_variant_row(e, cost);
    lemma_children(e, cost);
    let r = rows_of(e, line_no, file_path, cost);
    let c = r.children;
    let t = child_tables(e);
    assert(c == variant_rows(e, cost).1);
    assert forall|k: int|
        #![trigger c[k]]
        0 <= k < c.len() implies exists|i: int|
            #![trigger t[i]]
            0 <= i < t.len() && t[i].0 == c[k].0 && c[k].1.len() > 0 && rows_of_width(c[k].1, t[i].1) by {
        let i = choose|i: int|
            #![trigger t[i]]
            0 <= i < t.len() && t[i].0 == c[k].0 && c[k].1.len() > 0 && rows_of_width(c[k].1, t[i].1)
                && positions_increasing(c[k].1);
        assert(t[i].0 == c[k].0);
    }
}

/// Within each child table of an entry the rows' positions are non-negative
/// and strictly increasing, so no two rows of one entry share a position.
pub proof fn lemma_child_positions_increasing(e: Entry, line_no: int, file_path: Seq<char>, cost: Option<JsonNumber>)
    requires
        !(e is Unknown),
    ensures
        forall|k: int|
            0 <= k < rows_of(e, line_no, file_path, cost).children.len() ==> positions_increasing(
                (#[trigger] rows_of(e, line_no, file_path, cost).children[k]).1,
            ),
{
    lemma_children(e, cost);
    let c = rows_of(e, line_no, file_path, cost).children;
    let t = child_tables(e);
    assert forall|k: int| 0 <= k < c.len() implies positions_increasing((#[trigger] c[k]).1) by {
        let i = choose|i: int|
            #![trigger t[i]]
            0 <= i < t.len() && t[i].0 == c[k].0 && c[k].1.len() > 0 && rows_of_width(c[k].1, t[i].1)
                && positions_increasing(c[k].1);
    }
}

// ─── Content blocks that are kept ────────────────────────────────────────

/// The positions, in order, of the first `n` user blocks of a known type.
pub open spec fn kept_user_blocks(blocks: Seq<UserContentBlock>, n: int) -> Seq<int>
    decreases n,
{
    if n <= 0 {
        Seq::empty()
    } else if blocks[n - 1] is Unknown {
        kept_user_blocks(blocks, n - 1)
    } else {
        kept_user_blocks(blocks, n - 1).push(n - 1)
    }
}

/// The positions, in order, of the first `n` assistant blocks of a known
/// type.
pub open spec fn kept_assistant_blocks(blocks: Seq<AssistantContentBlock>, n: int) -> Seq<int>
    decreases n,
{
    if n <= 0 {
        Seq::empty()
    } else if blocks[n - 1] is Unknown {
        kept_assistant_blocks(blocks, n - 1)
    } else {
        kept_assistant_blocks(blocks, n - 1).push(n - 1)
    }
}

/// Positions below `n`, strictly increasing, that hold every index below
/// `n` for which `keep` holds and no other.
pub open spec fn exactly_the_kept(k: Seq<int>, n: int, keep: spec_fn(int) -> bool) -> bool {
    &&& forall|j: int| 0 <= j < k.len() ==> 0 <= #[trigger] k[j] < n && keep(k[j])
    &&& forall|a: int, b: int| 0 <= a < b < k.len() ==> #[trigger] k[a] < #[trigger] k[b]
    &&& forall|i: int| 0 <= i < n && #[trigger] keep(i) ==> k.contains(i)
}

/// How many times `name` occurs in `names`.
pub open spec fn count_name(names: Seq<Seq<char>>, name: Seq<char>) -> nat
    decreases names.len(),
{
    if names.len() == 0 {
        0
    } else {
        count_name(names.drop_last(), name) + if names.last() == name {
            1nat
        } else {
            0nat
        }
    }
}

proof fn lemma_count_name_append(a: Seq<Seq<char>>, b: Seq<Seq<char>>, name: Seq<char>)
    ensures
        count_name(a + b, name) == count_name(a, name) + count_name(b, name),
    decreases b.len(),
{
    if b.len() == 0 {
        assert(a + b =~= a);
    } else {
        assert((a + b).drop_last() =~= a + b.drop_last());
        lemma_count_name_append(a, b.drop_last(), name);
    }
}

/// The block type a kept assistant block is stored under.
pub open spec fn assistant_block_tag(blk: AssistantContentBlock) -> Seq<char> {
    match blk {
        AssistantContentBlock::Text { .. } => "text"@,
        AssistantContentBlock::Thinking { .. } => "thinking"@,
        AssistantContentBlock::RedactedThinking { .. } => "redacted_thinking"@,
        AssistantContentBlock::ToolUse { .. } => "tool_use"@,
        AssistantContentBlock::Unknown => Seq::empty(),
    }
}

proof fn lemma_user_kept(blocks: Seq<UserContentBlock>, n: int)
    requires
        0 <= n <= blocks.len(),
    ensures
        ({
            let k = kept_user_blocks(blocks, n);
            let rows = user_block_rows(blocks, n);
            &&& exactly_the_kept(k, n, |i: int| !(blocks[i] is Unknown))
            &&& rows.len() == k.len()
            &&& forall|j: int|
                0 <= j < k.len() ==> Some(#[trigger] rows[j]) == user_block_row(blocks[k[j]], k[j])
            &&& count_name(user_unknowns(blocks, n), "UserContentBlock"@) == n - k.len()
        }),
    decreases n,
{
    reveal_strlit("UserContentBlock");
    reveal_strlit("ImageSource");
    reveal_strlit("DocumentSource");
    if n > 0 {
        lemma_user_kept(blocks, n - 1);
        let k0 = kept_user_blocks(blocks, n - 1);
        let k = kept_user_blocks(blocks, n);
        let r0 = user_block_rows(blocks, n - 1);
        let rows = user_block_rows(blocks, n);
        let keep = |i: int| !(blocks[i] is Unknown);
        let extra = user_block_unknowns(blocks[n - 1]);
        lemma_count_name_append(user_unknowns(blocks, n - 1), extra, "UserContentBlock"@);
        assert(count_name(Seq::<Seq<char>>::empty(), "UserContentBlock"@) == 0);
        if blocks[n - 1] is Unknown {
            assert(count_name(extra, "UserContentBlock"@) == 1) by {
                assert(extra.drop_last() =~= Seq::<Seq<char>>::empty());
            }
            assert forall|i: int| 0 <= i < n && #[trigger] keep(i) implies k.contains(i) by {
                assert(keep(i) == !(blocks[i] is Unknown));
                if i < n - 1 {
                    assert(k0.contains(i));
                }
            }
        } else {
            assert(count_name(extra, "UserContentBlock"@) == 0) by {
                match blocks[n - 1] {
                    UserContentBlock::Image { source } => {
                        if source is Unknown {
                            assert(extra.drop_last() =~= Seq::<Seq<char>>::empty());
                            assert("ImageSource"@.len() != "UserContentBlock"@.len());
                            assert(extra.last() != "UserContentBlock"@);
                        } else {
                            assert(extra =~= Seq::<Seq<char>>::empty());
                        }
                    },
                    UserContentBlock::Document { source, .. } => {
                        if source is Unknown {
                            assert(extra.drop_last() =~= Seq::<Seq<char>>::empty());
                            assert("DocumentSource"@.len() != "UserContentBlock"@.len());
                            assert(extra.last() != "UserContentBlock"@);
                        } else {
                            assert(extra =~= Seq::<Seq<char>>::empty());
                        }
                    },
                    _ => {
                        assert(extra =~= Seq::<Seq<char>>::empty());
                    },
                }
            }
            assert(k == k0.push(n - 1));
            assert(k[k0.len() as int] == n - 1);
            assert forall|j: int| 0 <= j < k.len() implies 0 <= #[trigger] k[j] < n && keep(k[j]) by {
                if j < k0.len() {
                    assert(k[j] == k0[j]);
                    assert(keep(k0[j]) == !(blocks[k0[j]] is Unknown));
                }
            }
            assert forall|a: int, b: int| 0 <= a < b < k.len() implies #[trigger] k[a] < #[trigger] k[b] by {
                assert(k[a] == k0[a]);
                if b < k0.len() {
                    assert(k[b] == k0[b]);
                }
            }
            assert forall|i: int| 0 <= i < n && #[trigger] keep(i) implies k.contains(i) by {
                if i < n - 1 {
                    assert(keep(i) == !(blocks[i] is Unknown));
                    assert(k0.contains(i));
                    let j = choose|j: int| 0 <= j < k0.len() && k0[j] == i;
                    assert(k[j] == i);
                } else {
                    assert(k[k0.len() as int] == i);
                }
            }
            assert forall|j: int| 0 <= j < k.len() implies Some(#[trigger] rows[j]) == user_block_row(blocks[k[j]], k[j]) by {
                if j < k0.len() {
                    assert(rows[j] == r0[j]);
                    assert(k[j] == k0[j]);
                }
            }
        }
    } else {
        assert(user_unknowns(blocks, n) =~= Seq::<Seq<char>>::empty());
    }
}

/// Of a user message whose content is a list of blocks: its row says there
/// are blocks and holds no plain text, even when no block is kept; there is
/// one `user_content_blocks` row per block of a known type, in order, row `j`
/// being the row of the `j`-th such block at that block's own position; the
/// child table is left out when there is none; and `UserContentBlock` is
/// reported once per block of unknown type.
pub proof fn lemma_user_blocks_kept(ue: UserEntry, cost: Option<JsonNumber>)
    requires
        ue.message.content is Blocks,
    ensures
        ({
            let bs = user_blocks(ue);
            let n = bs.len() as int;
            let k = kept_user_blocks(bs, n);
            let rows = user_block_rows(bs, n);
            let children = variant_rows(Entry::User(ue), cost).1;
            &&& user_row(ue)[2] == JsonView::Null
            &&& user_row(ue)[3] == JsonView::Bool(true)
            &&& exactly_the_kept(k, n, |i: int| !(bs[i] is Unknown))
            &&& rows.len() == k.len()
            &&& forall|j: int|
                0 <= j < k.len() ==> {
                    &&& Some(#[trigger] rows[j]) == user_block_row(bs[k[j]], k[j])
                    &&& rows[j].len() == 10
                    &&& position(rows[j]) == k[j]
                }
            &&& (k.len() == 0 ==> children.len() == 0)
            &&& (k.len() > 0 ==> children == seq![("user_content_blocks"@, rows)])
            &&& count_name(entry_unknowns(Entry::User(ue)), "UserContentBlock"@) == n - k.len()
        }),
{
    let bs = user_blocks(ue);
    lemma_user_kept(bs, bs.len() as int);
}

proof fn lemma_assistant_kept(blocks: Seq<AssistantContentBlock>, n: int)
    requires
        0 <= n <= blocks.len(),
    ensures
        ({
            let k = kept_assistant_blocks(blocks, n);
            let rows = assistant_block_rows(blocks, n);
            &&& k.len() <= n
            &&& exactly_the_kept(k, n, |i: int| !(blocks[i] is Unknown))
            &&& rows.len() == k.len()
            &&& forall|j: int|
                0 <= j < k.len() ==> Some(#[trigger] rows[j]) == assistant_block_row(blocks[k[j]], k[j])
            &&& assistant_unknowns(blocks, n) == Seq::new((n - k.len()) as nat, |i: int| "AssistantContentBlock"@)
        }),
    decreases n,
{
    if n > 0 {
        lemma_assistant_kept(blocks, n - 1);
        let k0 = kept_assistant_blocks(blocks, n - 1);
        let k = kept_assistant_blocks(blocks, n);
        let r0 = assistant_block_rows(blocks, n - 1);
        let rows = assistant_block_rows(blocks, n);
        let keep = |i: int| !(blocks[i] is Unknown);
        let u0 = assistant_unknowns(blocks, n - 1);
        assert(u0.len() == n - 1 - k0.len());
        assert(forall|i: int| 0 <= i < u0.len() ==> u0[i] == "AssistantContentBlock"@);
        if blocks[n - 1] is Unknown {
            assert(k == k0);
            assert(assistant_unknowns(blocks, n) == u0 + seq!["AssistantContentBlock"@]);
            assert(assistant_unknowns(blocks, n) =~= Seq::new((n - k.len()) as nat, |i: int| "AssistantContentBlock"@));
            assert forall|i: int| 0 <= i < n && #[trigger] keep(i) implies k.contains(i) by {
                assert(keep(i) == !(blocks[i] is Unknown));
                if i < n - 1 {
                    assert(k0.contains(i));
                }
            }
        } else {
            assert(assistant_unknowns(blocks, n) == u0 + Seq::<Seq<char>>::empty());
            assert(assistant_unknowns(blocks, n) =~= Seq::new((n - k.len()) as nat, |i: int| "AssistantContentBlock"@));
            assert(k == k0.push(n - 1));
            assert(k[k0.len() as int] == n - 1);
            assert forall|j: int| 0 <= j < k.len() implies 0 <= #[trigger] k[j] < n && keep(k[j]) by {
                if j < k0.len() {
                    assert(k[j] == k0[j]);
                    assert(keep(k0[j]) == !(blocks[k0[j]] is Unknown));
                }
            }
            assert forall|a: int, b: int| 0 <= a < b < k.len() implies #[trigger] k[a] < #[trigger] k[b] by {
                assert(k[a] == k0[a]);
                if b < k0.len() {
                    assert(k[b] == k0[b]);
                }
            }
            assert forall|i: int| 0 <= i < n && #[trigger] keep(i) implies k.contains(i) by {
                if i < n - 1 {
                    assert(keep(i) == !(blocks[i] is Unknown));
                    assert(k0.contains(i));
                    let j = choose|j: int| 0 <= j < k0.len() && k0[j] == i;
                    assert(k[j] == i);
                } else {
                    assert(k[k0.len() as int] == i);
                }
            }
            assert forall|j: int| 0 <= j < k.len() implies Some(#[trigger] rows[j]) == assistant_block_row(blocks[k[j]], k[j]) by {
                if j < k0.len() {
                    assert(rows[j] == r0[j]);
                    assert(k[j] == k0[j]);
                }
            }
        }
    } else {
        assert(assistant_unknowns(blocks, n) =~= Seq::new(0nat, |i: int| "AssistantContentBlock"@));
    }
}

/// Of an assistant message: there is one `assistant_content_blocks` row per
/// block of a known type, in order, row `j` being the row of the `j`-th such
/// block, at that block's own position and under its block type; the child
/// table comes first when there is one and is left out otherwise; and
/// `AssistantContentBlock` is reported once per block of unknown type and
/// nothing else is reported.
pub proof fn lemma_assistant_blocks_kept(ae: AssistantEntry, cost: Option<JsonNumber>)
    ensures
        ({
            let c = ae.message.content@;
            let n = c.len() as int;
            let k = kept_assistant_blocks(c, n);
            let rows = assistant_block_rows(c, n);
            let children = variant_rows(Entry::Assistant(ae), cost).1;
            &&& exactly_the_kept(k, n, |i: int| !(c[i] is Unknown))
            &&& rows.len() == k.len()
            &&& forall|j: int|
                0 <= j < k.len() ==> {
                    &&& Some(#[trigger] rows[j]) == assistant_block_row(c[k[j]], k[j])
                    &&& rows[j].len() == 11
                    &&& position(rows[j]) == k[j]
                    &&& rows[j][2] == JsonView::String(assistant_block_tag(c[k[j]]))
                }
            &&& (k.len() == 0 ==> children == child_table("assistant_usage_iterations"@, iteration_rows(ae.message.usage)))
            &&& (k.len() > 0 ==> children[0] == ("assistant_content_blocks"@, rows))
            &&& entry_unknowns(Entry::Assistant(ae)) == Seq::new((n - k.len()) as nat, |i: int| "AssistantContentBlock"@)
        }),
{
    let c = ae.message.content@;
    lemma_assistant_kept(c, c.len() as int);
    let rows = assistant_block_rows(c, c.len() as int);
    let it = child_table("assistant_usage_iterations"@, iteration_rows(ae.message.usage));
    if rows.len() == 0 {
        assert(child_table("assistant_content_blocks"@, rows) + it =~= it);
    } else {
        assert((child_table("assistant_content_blocks"@, rows) + it)[0] == ("assistant_content_blocks"@, rows));
    }
}

// ─── Counting tool uses ──────────────────────────────────────────────────

/// How many rows have the block type (cell 2) `kind`.
pub open spec fn count_of_type(rows: Seq<Seq<JsonView>>, kind: Seq<char>) -> nat
    decreases rows.len(),
{
    if rows.len() == 0 {
        0
    } else {
        count_of_type(rows.drop_last(), kind) + if rows.last()[2] == JsonView::String(kind) {
            1nat
        } else {
            0nat
        }
    }
}

proof fn lemma_tool_uses_counted(blocks: Seq<AssistantContentBlock>, n: int)
    requires
        0 <= n <= blocks.len(),
    ensures
        tool_uses(blocks, n) == count_of_type(assistant_block_rows(blocks, n), "tool_use"@),
    decreases n,
{
    if n > 0 {
        lemma_tool_uses_counted(blocks, n - 1);
        let prev = assistant_block_rows(blocks, n - 1);
        match assistant_block_row(blocks[n - 1], n - 1) {
            Some(r) => {
                let cur = prev.push(r);
                assert(cur.drop_last() =~= prev);
                reveal_strlit("tool_use");
                match blocks[n - 1] {
                    AssistantContentBlock::Text { .. } => {
                        reveal_strlit("text");
                        assert("text"@.len() != "tool_use"@.len());
                    },
                    AssistantContentBlock::Thinking { .. } => {
                        reveal_strlit("thinking");
                        assert("thinking"@[1] != "tool_use"@[1]);
                    },
                    AssistantContentBlock::RedactedThinking { .. } => {
                        reveal_strlit("redacted_thinking");
                        assert("redacted_thinking"@.len() != "tool_use"@.len());
                    },
                    _ => {},
                }
            },
            None => {},
        }
    }
}

/// The `tool_use_count` cell of an assistant message's row is the number of
/// its content-block rows whose block type is `tool_use`.
pub proof fn lemma_tool_use_count(ae: AssistantEntry, cost: Option<JsonNumber>)
    ensures
        assistant_row(ae, cost)[12] == cell_uint(
            count_of_type(
                assistant_block_rows(ae.message.content@, ae.message.content@.len() as int),
                "tool_use"@,
            ),
        ),
{
    lemma_tool_uses_counted(ae.message.content@, ae.message.content@.len() as int);
}

// ─── One file, line by line ──────────────────────────────────────────────

/// The entry an event carries, if it carries one.
pub open spec fn parsed_entry(ev: LineEvent) -> Option<Entry> {
    match ev {
        LineEvent::Parsed(e) => Some(e),
        _ => None,
    }
}

/// The envelope timestamp of an entry, if it has an envelope.
pub open spec fn stamp_of(e: Entry) -> Seq<Seq<char>> {
    match entry_envelope(e) {
        Some(env) => seq![env.timestamp@],
        None => Seq::empty(),
    }
}

/// The session id an entry carries, in its envelope or by itself.
pub open spec fn sid_of(e: Entry) -> Seq<Seq<char>> {
    match entry_envelope(e) {
        Some(env) => seq![env.session_id@],
        None => match metadata_sid(e) {
            Some(sid) => seq![sid],
            None => Seq::empty(),
        },
    }
}

/// The envelope timestamps of the entries among `evs`, in order.
pub open spec fn timestamps(evs: Seq<(usize, LineEvent, Option<JsonNumber>)>) -> Seq<Seq<char>>
    decreases evs.len(),
{
    if evs.len() == 0 {
        Seq::empty()
    } else {
        timestamps(evs.drop_last()) + match parsed_entry(evs.last().1) {
            Some(e) => stamp_of(e),
            None => Seq::empty(),
        }
    }
}

/// The session ids that the entries among `evs` carry, in order.
pub open spec fn session_ids(evs: Seq<(usize, LineEvent, Option<JsonNumber>)>) -> Seq<Seq<char>>
    decreases evs.len(),
{
    if evs.len() == 0 {
        Seq::empty()
    } else {
        session_ids(evs.drop_last()) + match parsed_entry(evs.last().1) {
            Some(e) => sid_of(e),
            None => Seq::empty(),
        }
    }
}

/// How many of `evs` carry an entry of a known type.
pub open spec fn known_entries(evs: Seq<(usize, LineEvent, Option<JsonNumber>)>) -> nat
    decreases evs.len(),
{
    if evs.len() == 0 {
        0
    } else {
        known_entries(evs.drop_last()) + match parsed_entry(evs.last().1) {
            Some(e) => if e is Unknown {
                0nat
            } else {
                1nat
            },
            None => 0nat,
        }
    }
}

/// Whether an event is a failure to read or parse a line.
pub open spec fn is_failure(ev: LineEvent) -> bool {
    ev is ReadError || ev is NotJson || ev is TypedParseError
}

/// How many of `evs` are failures to read or parse a line.
pub open spec fn failed_lines(evs: Seq<(usize, LineEvent, Option<JsonNumber>)>) -> nat
    decreases evs.len(),
{
    if evs.len() == 0 {
        0
    } else {
        failed_lines(evs.drop_last()) + if is_failure(evs.last().1) {
            1nat
        } else {
            0nat
        }
    }
}

/// A list of model names in which no name is empty and none occurs twice.
pub open spec fn distinct_names(ms: Seq<Seq<char>>) -> bool {
    &&& forall|i: int| 0 <= i < ms.len() ==> (#[trigger] ms[i]).len() > 0
    &&& forall|i: int, j: int| 0 <= i < j < ms.len() ==> #[trigger] ms[i] != #[trigger] ms[j]
}

/// `t` is a least element of `ts` in the order of `text_less`.
pub open spec fn is_least(t: Seq<char>, ts: Seq<Seq<char>>) -> bool {
    ts.contains(t) && forall|i: int| 0 <= i < ts.len() ==> !text_less(#[trigger] ts[i], t)
}

/// `t` is a greatest element of `ts` in the order of `text_less`.
pub open spec fn is_greatest(t: Seq<char>, ts: Seq<Seq<char>>) -> bool {
    ts.contains(t) && forall|i: int| 0 <= i < ts.len() ==> !text_less(t, #[trigger] ts[i])
}

proof fn lemma_text_less_irreflexive(a: Seq<char>)
    ensures
        !text_less(a, a),
    decreases a.len(),
{
    if a.len() > 0 {
        lemma_text_less_irreflexive(a.drop_first());
    }
}

proof fn lemma_text_less_transitive(a: Seq<char>, b: Seq<char>, c: Seq<char>)
    requires
        text_less(a, b),
        text_less(b, c),
    ensures
        text_less(a, c),
    decreases a.len(),
{
    if a.len() > 0 && b.len() > 0 && c.len() > 0 && a[0] == b[0] && b[0] == c[0] {
        lemma_text_less_transitive(a.drop_first(), b.drop_first(), c.drop_first());
    }
}

/// An entry of unknown type changes nothing: it is skipped, and is no
/// failure; nor does a line with nothing to parse.
pub proof fn lemma_unknown_entry_skipped(st: StateView, line_no: usize, cost: Option<JsonNumber>)
    ensures
        next_state(st, line_no, LineEvent::Parsed(Entry::Unknown), cost) == st,
        next_state(st, line_no, LineEvent::Blank, cost) == st,
{
}

/// An entry of a known type always yields its rows, appended to the rows
/// gathered so far, and never a failure.
pub proof fn lemma_known_entry_never_fails(st: StateView, line_no: usize, e: Entry, cost: Option<JsonNumber>)
    requires
        !(e is Unknown),
    ensures
        next_state(st, line_no, LineEvent::Parsed(e), cost).failures == st.failures,
        next_state(st, line_no, LineEvent::Parsed(e), cost).entries == st.entries.push(
            rows_of(e, (line_no as i64) as int, st.file_path, cost),
        ),
{
}

/// The list of unpriced models never holds an empty name or a name twice,
/// whatever event comes.
pub proof fn lemma_unknown_models_distinct(st: StateView, line_no: usize, ev: LineEvent, cost: Option<JsonNumber>)
    requires
        distinct_names(st.unknown_models),
    ensures
        distinct_names(next_state(st, line_no, ev, cost).unknown_models),
{
    let ms = st.unknown_models;
    if let LineEvent::Parsed(e) = ev {
        if let Entry::Assistant(ae) = e {
            let m = model_text(ae);
            let out = next_state(st, line_no, ev, cost).unknown_models;
            if out != ms {
                assert(out == ms.push(m));
                assert forall|i: int, j: int| 0 <= i < j < out.len() implies #[trigger] out[i] != #[trigger] out[j] by {
                    if j == ms.len() {
                        assert(out[i] == ms[i]);
                        assert(ms.contains(ms[i]));
                    } else {
                        assert(out[i] == ms[i] && out[j] == ms[j]);
                    }
                }
                assert forall|i: int| 0 <= i < out.len() implies (#[trigger] out[i]).len() > 0 by {
                    if i < ms.len() {
                        assert(out[i] == ms[i]);
                    }
                }
            }
        }
    }
}

proof fn lemma_first_ts_step(f: Option<Seq<char>>, ts: Seq<Seq<char>>, e: Entry)
    requires
        (f is None) == (ts.len() == 0),
        f matches Some(x) ==> is_least(x, ts),
    ensures
        (next_first_ts(f, e) is None) == ((ts + stamp_of(e)).len() == 0),
        next_first_ts(f, e) matches Some(x) ==> is_least(x, ts + stamp_of(e)),
{
    let out = ts + stamp_of(e);
    if let Some(env) = entry_envelope(e) {
        let t = env.timestamp@;
        assert(out[ts.len() as int] == t);
        match f {
            Some(x) => {
                let i0 = choose|i: int| 0 <= i < ts.len() && ts[i] == x;
                assert(out[i0] == x);
                if text_less(t, x) {
                    assert forall|i: int| 0 <= i < out.len() implies !text_less(#[trigger] out[i], t) by {
                        if i < ts.len() {
                            assert(out[i] == ts[i]);
                            if text_less(ts[i], t) {
                                lemma_text_less_transitive(ts[i], t, x);
                            }
                        } else {
                            lemma_text_less_irreflexive(t);
                        }
                    }
                } else {
                    assert forall|i: int| 0 <= i < out.len() implies !text_less(#[trigger] out[i], x) by {
                        if i < ts.len() {
                            assert(out[i] == ts[i]);
                        }
                    }
                }
            },
            None => {
                assert forall|i: int| 0 <= i < out.len() implies !text_less(#[trigger] out[i], t) by {
                    lemma_text_less_irreflexive(t);
                }
            },
        }
    } else {
        assert(out =~= ts);
    }
}

proof fn lemma_last_ts_step(l: Option<Seq<char>>, ts: Seq<Seq<char>>, e: Entry)
    requires
        (l is None) == (ts.len() == 0),
        l matches Some(x) ==> is_greatest(x, ts),
    ensures
        (next_last_ts(l, e) is None) == ((ts + stamp_of(e)).len() == 0),
        next_last_ts(l, e) matches Some(x) ==> is_greatest(x, ts + stamp_of(e)),
{
    let out = ts + stamp_of(e);
    if let Some(env) = entry_envelope(e) {
        let t = env.timestamp@;
        assert(out[ts.len() as int] == t);
        match l {
            Some(x) => {
                let i0 = choose|i: int| 0 <= i < ts.len() && ts[i] == x;
                assert(out[i0] == x);
                if text_less(x, t) {
                    assert forall|i: int| 0 <= i < out.len() implies !text_less(t, #[trigger] out[i]) by {
                        if i < ts.len() {
                            assert(out[i] == ts[i]);
                            if text_less(t, ts[i]) {
                                lemma_text_less_transitive(x, t, ts[i]);
                            }
                        } else {
                            lemma_text_less_irreflexive(t);
                        }
                    }
                } else {
                    assert forall|i: int| 0 <= i < out.len() implies !text_less(x, #[trigger] out[i]) by {
                        if i < ts.len() {
                            assert(out[i] == ts[i]);
                        }
                    }
                }
            },
            None => {
                assert forall|i: int| 0 <= i < out.len() implies !text_less(t, #[trigger] out[i]) by {
                    lemma_text_less_irreflexive(t);
                }
            },
        }
    } else {
        assert(out =~= ts);
    }
}

/// What a whole file yields, its lines taken from the first on: the
/// transcript's session id is the first one any entry carries; its first and
/// last timestamps are the least and the greatest envelope timestamp (none
/// when no entry has an envelope); there is one set of rows per entry of a
/// known type and one failure per line that could not be read or parsed;
/// the list of unpriced models holds no empty name and no name twice.
pub proof fn lemma_file_summary(file_path: Seq<char>, evs: Seq<(usize, LineEvent, Option<JsonNumber>)>)
    ensures
        ({
            let fin = run(empty_state(file_path), evs);
            let ts = timestamps(evs);
            let sids = session_ids(evs);
            &&& fin.file_path == file_path
            &&& fin.session_id == if sids.len() == 0 {
                None
            } else {
                Some(sids[0])
            }
            &&& (fin.first_ts is None) == (ts.len() == 0)
            &&& (fin.last_ts is None) == (ts.len() == 0)
            &&& (fin.first_ts matches Some(f) ==> is_least(f, ts))
            &&& (fin.last_ts matches Some(l) ==> is_greatest(l, ts))
            &&& fin.entries.len() == known_entries(evs)
            &&& fin.failures.len() == failed_lines(evs)
            &&& distinct_names(fin.unknown_models)
        }),
    decreases evs.len(),
{
    if evs.len() > 0 {
        let prev = evs.drop_last();
        lemma_file_summary(file_path, prev);
        let st = run(empty_state(file_path), prev);
        let (line_no, ev, cost) = evs.last();
        lemma_unknown_models_distinct(st, line_no, ev, cost);
        if let LineEvent::Parsed(e) = ev {
            if !(e is Unknown) {
                lemma_first_ts_step(st.first_ts, timestamps(prev), e);
                lemma_last_ts_step(st.last_ts, timestamps(prev), e);
                let sp = session_ids(prev);
                if sp.len() > 0 {
                    assert((sp + sid_of(e))[0] == sp[0]);
                }
            } else {
                assert(timestamps(evs) =~= timestamps(prev));
                assert(session_ids(evs) =~= session_ids(prev));
            }
        } else {
            assert(timestamps(evs) =~= timestamps(prev));
            assert(session_ids(evs) =~= session_ids(prev));
        }
    } else {
        assert(distinct_names(Seq::<Seq<char>>::empty()));
    }
}

/// The `session_id` column (index 9) of an entry's `entries` row holds the
/// session id the entry carries, in its envelope or by itself, and NULL when
/// it carries none; so the transcript's session id is the first non-NULL
/// value of that column.
pub proof fn lemma_session_id_column(e: Entry, line_no: int, file_path: Seq<char>)
    ensures
        sid_of(e).len() <= 1,
        sid_of(e).len() == 1 ==> entry_row(e, line_no, file_path)[9] == JsonView::String(sid_of(e)[0]),
        sid_of(e).len() == 0 ==> entry_row(e, line_no, file_path)[9] == JsonView::Null,
{
}

/// The `entries`-row column `col` of the rows, where it holds text, in order.
pub open spec fn column_texts(rows: Seq<RowsView>, col: int) -> Seq<Seq<char>>
    decreases rows.len(),
{
    if rows.len() == 0 {
        Seq::empty()
    } else {
        column_texts(rows.drop_last(), col) + match rows.last().entry[col] {
            JsonView::String(t) => seq![t],
            _ => Seq::empty(),
        }
    }
}

/// The line number an `entries` row records (column 2); -1 when it holds
/// none.
pub open spec fn row_line(r: RowsView) -> int {
    match r.entry[2] {
        JsonView::Number(NumberView::PosInt(n)) => n as int,
        JsonView::Number(NumberView::NegInt(i)) => i,
        _ => -1,
    }
}

proof fn lemma_columns(file_path: Seq<char>, evs: Seq<(usize, LineEvent, Option<JsonNumber>)>)
    ensures
        column_texts(run(empty_state(file_path), evs).entries, 9) == session_ids(evs),
        column_texts(run(empty_state(file_path), evs).entries, 10) == timestamps(evs),
    decreases evs.len(),
{
    if evs.len() > 0 {
        let prev = evs.drop_last();
        lemma_columns(file_path, prev);
        lemma_file_summary(file_path, prev);
        let st = run(empty_state(file_path), prev);
        let fin = run(empty_state(file_path), evs);
        let (line_no, ev, cost) = evs.last();
        if let LineEvent::Parsed(e) = ev {
            if !(e is Unknown) {
                let r = rows_of(e, (line_no as i64) as int, st.file_path, cost);
                assert(fin.entries == st.entries.push(r));
                assert(fin.entries.drop_last() =~= st.entries);
                lemma_session_id_column(e, (line_no as i64) as int, st.file_path);
                let row = r.entry;
                match entry_envelope(e) {
                    Some(env) => {
                        assert(row[10] == JsonView::String(env.timestamp@));
                        assert(stamp_of(e) == seq![env.timestamp@]);
                    },
                    None => {
                        assert(row[10] == JsonView::Null);
                        assert(stamp_of(e) =~= Seq::<Seq<char>>::empty());
                    },
                }
                if sid_of(e).len() == 0 {
                    assert(sid_of(e) =~= Seq::<Seq<char>>::empty());
                } else {
                    assert(sid_of(e) =~= seq![sid_of(e)[0]]);
                }
                assert(column_texts(fin.entries, 9) =~= session_ids(evs));
                assert(column_texts(fin.entries, 10) =~= timestamps(evs));
            } else {
                assert(timestamps(evs) =~= timestamps(prev));
                assert(session_ids(evs) =~= session_ids(prev));
            }
        } else {
            assert(timestamps(evs) =~= timestamps(prev));
            assert(session_ids(evs) =~= session_ids(prev));
        }
    } else {
        assert(timestamps(evs) =~= Seq::<Seq<char>>::empty());
        assert(session_ids(evs) =~= Seq::<Seq<char>>::empty());
    }
}

/// The `transcripts` row of a whole file, read from its first line on, as
/// its rows show it: the session id is the first text in the `session_id`
/// column of the `entries` rows (none when there is none); the first and
/// last timestamps are the least and the greatest text in the `timestamp`
/// column (none when there is none); and there is one set of rows per entry.
pub proof fn lemma_header_from_rows(file_path: Seq<char>, evs: Seq<(usize, LineEvent, Option<JsonNumber>)>)
    ensures
        ({
            let fin = run(empty_state(file_path), evs);
            let sids = column_texts(fin.entries, 9);
            let ts = column_texts(fin.entries, 10);
            &&& fin.session_id == if sids.len() == 0 {
                None
            } else {
                Some(sids[0])
            }
            &&& (fin.first_ts is None) == (ts.len() == 0)
            &&& (fin.last_ts is None) == (ts.len() == 0)
            &&& (fin.first_ts matches Some(f) ==> is_least(f, ts))
            &&& (fin.last_ts matches Some(l) ==> is_greatest(l, ts))
            &&& fin.entries.len() == known_entries(evs)
        }),
{
    lemma_file_summary(file_path, evs);
    lemma_columns(file_path, evs);
}

proof fn lemma_lines_step(file_path: Seq<char>, evs: Seq<(usize, LineEvent, Option<JsonNumber>)>)
    requires
        forall|a: int, b: int| 0 <= a < b < evs.len() ==> #[trigger] evs[a].0 < #[trigger] evs[b].0,
        forall|i: int| 0 <= i < evs.len() ==> #[trigger] evs[i].0 <= i64::MAX,
    ensures
        ({
            let fin = run(empty_state(file_path), evs);
            &&& forall|i: int| 0 <= i < fin.entries.len() ==> (#[trigger] fin.entries[i]).entry[1] == JsonView::String(file_path)
            &&& forall|a: int, b: int| 0 <= a < b < fin.entries.len() ==> row_line(#[trigger] fin.entries[a]) < row_line(#[trigger] fin.entries[b])
            &&& forall|a: int, b: int| 0 <= a < b < fin.failures.len() ==> (#[trigger] fin.failures[a]).0 < (#[trigger] fin.failures[b]).0
            &&& forall|i: int, j: int| 0 <= i < fin.entries.len() && 0 <= j < fin.failures.len() ==> row_line(#[trigger] fin.entries[i]) != (#[trigger] fin.failures[j]).0 as int
            &&& evs.len() > 0 ==> forall|i: int| 0 <= i < fin.entries.len() ==> row_line(#[trigger] fin.entries[i]) <= evs.last().0
            &&& evs.len() > 0 ==> forall|j: int| 0 <= j < fin.failures.len() ==> (#[trigger] fin.failures[j]).0 <= evs.last().0
            &&& evs.len() == 0 ==> fin.entries.len() == 0 && fin.failures.len() == 0
        }),
    decreases evs.len(),
{
    if evs.len() > 0 {
        let prev = evs.drop_last();
        assert forall|a: int, b: int| 0 <= a < b < prev.len() implies #[trigger] prev[a].0 < #[trigger] prev[b].0 by {
            assert(prev[a] == evs[a] && prev[b] == evs[b]);
        }
        assert forall|i: int| 0 <= i < prev.len() implies #[trigger] prev[i].0 <= i64::MAX by {
            assert(prev[i] == evs[i]);
        }
        lemma_lines_step(file_path, prev);
        lemma_file_summary(file_path, prev);
        let st = run(empty_state(file_path), prev);
        let fin = run(empty_state(file_path), evs);
        let (l, ev, cost) = evs.last();
        assert(evs.last() == evs[evs.len() - 1]);
        assert(l <= i64::MAX);
        if prev.len() > 0 {
            assert(prev.last() == evs[evs.len() - 2]);
            assert(prev.last().0 < l);
        }
        match ev {
            LineEvent::Parsed(e) => {
                if !(e is Unknown) {
                    let r = rows_of(e, (l as i64) as int, st.file_path, cost);
                    assert(fin.entries == st.entries.push(r));
                    assert((l as i64) as int == l as int);
                    assert(row_line(r) == l as int);
                    assert forall|i: int| 0 <= i < fin.entries.len() implies (#[trigger] fin.entries[i]).entry[1] == JsonView::String(file_path) by {
                        if i < st.entries.len() {
                            assert(fin.entries[i] == st.entries[i]);
                        }
                    }
                    assert forall|a: int, b: int| 0 <= a < b < fin.entries.len() implies row_line(#[trigger] fin.entries[a]) < row_line(#[trigger] fin.entries[b]) by {
                        assert(fin.entries[a] == st.entries[a]);
                        if b < st.entries.len() {
                            assert(fin.entries[b] == st.entries[b]);
                        }
                    }
                    assert forall|i: int, j: int| 0 <= i < fin.entries.len() && 0 <= j < fin.failures.len() implies row_line(#[trigger] fin.entries[i]) != (#[trigger] fin.failures[j]).0 as int by {
                        if i < st.entries.len() {
                            assert(fin.entries[i] == st.entries[i]);
                        }
                    }
                    assert forall|i: int| 0 <= i < fin.entries.len() implies row_line(#[trigger] fin.entries[i]) <= l by {
                        if i < st.entries.len() {
                            assert(fin.entries[i] == st.entries[i]);
                        }
                    }
                }
            },
            LineEvent::Blank => {},
            _ => {
                let m = fin.failures.last();
                assert(fin.failures.drop_last() =~= st.failures);
                assert(m.0 == l);
                assert forall|a: int, b: int| 0 <= a < b < fin.failures.len() implies (#[trigger] fin.failures[a]).0 < (#[trigger] fin.failures[b]).0 by {
                    assert(fin.failures[a] == st.failures[a]);
                    if b < st.failures.len() {
                        assert(fin.failures[b] == st.failures[b]);
                    }
                }
                assert forall|i: int, j: int| 0 <= i < fin.entries.len() && 0 <= j < fin.failures.len() implies row_line(#[trigger] fin.entries[i]) != (#[trigger] fin.failures[j]).0 as int by {
                    if j < st.failures.len() {
                        assert(fin.failures[j] == st.failures[j]);
                    }
                }
                assert forall|j: int| 0 <= j < fin.failures.len() implies (#[trigger] fin.failures[j]).0 <= l by {
                    if j < st.failures.len() {
                        assert(fin.failures[j] == st.failures[j]);
                    }
                }
            },
        }
    }
}

/// Over a file whose events come with strictly increasing line numbers (all
/// within what a row's `i64` line column holds): every `entries` row records
/// the file's path (column 1); the rows' line numbers (column 2) strictly
/// increase; the failures' line numbers strictly increase; and no line has
/// both rows and a failure.
pub proof fn lemma_file_lines(file_path: Seq<char>, evs: Seq<(usize, LineEvent, Option<JsonNumber>)>)
    requires
        forall|a: int, b: int| 0 <= a < b < evs.len() ==> #[trigger] evs[a].0 < #[trigger] evs[b].0,
        forall|i: int| 0 <= i < evs.len() ==> #[trigger] evs[i].0 <= i64::MAX,
    ensures
        ({
            let fin = run(empty_state(file_path), evs);
            &&& forall|i: int| 0 <= i < fin.entries.len() ==> (#[trigger] fin.entries[i]).entry[1] == JsonView::String(file_path)
            &&& forall|a: int, b: int| 0 <= a < b < fin.entries.len() ==> row_line(#[trigger] fin.entries[a]) < row_line(#[trigger] fin.entries[b])
            &&& forall|a: int, b: int| 0 <= a < b < fin.failures.len() ==> (#[trigger] fin.failures[a]).0 < (#[trigger] fin.failures[b]).0
            &&& forall|i: int, j: int| 0 <= i < fin.entries.len() && 0 <= j < fin.failures.len() ==> row_line(#[trigger] fin.entries[i]) != (#[trigger] fin.failures[j]).0 as int
        }),
{
    lemma_lines_step(file_path, evs);
}

/// Every `entries` row of a file records the file's path (column 1).
pub proof fn lemma_rows_carry_file_path(file_path: Seq<char>, evs: Seq<(usize, LineEvent, Option<JsonNumber>)>)
    ensures
        forall|i: int|
            0 <= i < run(empty_state(file_path), evs).entries.len() ==> (#[trigger] run(
                empty_state(file_path),
                evs,
            ).entries[i]).entry[1] == JsonView::String(file_path),
    decreases evs.len(),
{
    if evs.len() > 0 {
        let prev = evs.drop_last();
        lemma_rows_carry_file_path(file_path, prev);
        lemma_file_summary(file_path, prev);
        let st = run(empty_state(file_path), prev);
        let fin = run(empty_state(file_path), evs);
        assert forall|i: int| 0 <= i < fin.entries.len() implies (#[trigger] fin.entries[i]).entry[1] == JsonView::String(file_path) by {
            if i < st.entries.len() {
                assert(fin.entries[i] == st.entries[i]);
            }
        }
    }
}

proof fn lemma_read_prefix_is_prefix(evs: Seq<(usize, LineEvent, Option<JsonNumber>)>)
    ensures
        read_prefix(evs).len() <= evs.len(),
        forall|i: int| 0 <= i < read_prefix(evs).len() ==> #[trigger] read_prefix(evs)[i] == evs[i],
    decreases evs.len(),
{
    if evs.len() > 0 && !(evs[0].1 is ReadError) {
        let rest = evs.drop_first();
        lemma_read_prefix_is_prefix(rest);
        let p = read_prefix(evs);
        assert(p == seq![evs[0]] + read_prefix(rest));
        assert forall|i: int| 0 <= i < p.len() implies #[trigger] p[i] == evs[i] by {
            if i > 0 {
                assert(p[i] == read_prefix(rest)[i - 1]);
                assert(rest[i - 1] == evs[i]);
            }
        }
    }
}

/// What `parse_lines` gathers from a file whose line events come with
/// strictly increasing line numbers (within what a row's `i64` line column
/// holds): every `entries` row records the file's path; row line numbers
/// strictly increase, failure line numbers strictly increase, and no line
/// has both; the session id is the first text of the rows' `session_id`
/// column and the first and last timestamps are the least and greatest text
/// of their `timestamp` column.
pub proof fn lemma_file_state(file_path: Seq<char>, evs: Seq<(usize, LineEvent, Option<JsonNumber>)>)
    requires
        forall|a: int, b: int| 0 <= a < b < evs.len() ==> #[trigger] evs[a].0 < #[trigger] evs[b].0,
        forall|i: int| 0 <= i < evs.len() ==> #[trigger] evs[i].0 <= i64::MAX,
    ensures
        ({
            let fin = file_state(file_path, Ok(evs));
            let sids = column_texts(fin.entries, 9);
            let ts = column_texts(fin.entries, 10);
            &&& forall|i: int| 0 <= i < fin.entries.len() ==> (#[trigger] fin.entries[i]).entry[1] == JsonView::String(file_path)
            &&& forall|a: int, b: int| 0 <= a < b < fin.entries.len() ==> row_line(#[trigger] fin.entries[a]) < row_line(#[trigger] fin.entries[b])
            &&& forall|a: int, b: int| 0 <= a < b < fin.failures.len() ==> (#[trigger] fin.failures[a]).0 < (#[trigger] fin.failures[b]).0
            &&& forall|i: int, j: int| 0 <= i < fin.entries.len() && 0 <= j < fin.failures.len() ==> row_line(#[trigger] fin.entries[i]) != (#[trigger] fin.failures[j]).0 as int
            &&& fin.session_id == if sids.len() == 0 {
                None
            } else {
                Some(sids[0])
            }
            &&& (fin.first_ts is None) == (ts.len() == 0)
            &&& (fin.last_ts is None) == (ts.len() == 0)
            &&& (fin.first_ts matches Some(f) ==> is_least(f, ts))
            &&& (fin.last_ts matches Some(l) ==> is_greatest(l, ts))
        }),
{
    let p = read_prefix(evs);
    lemma_read_prefix_is_prefix(evs);
    assert forall|a: int, b: int| 0 <= a < b < p.len() implies #[trigger] p[a].0 < #[trigger] p[b].0 by {
        assert(p[a] == evs[a] && p[b] == evs[b]);
    }
    assert forall|i: int| 0 <= i < p.len() implies #[trigger] p[i].0 <= i64::MAX by {
        assert(p[i] == evs[i]);
    }
    lemma_file_lines(file_path, p);
    lemma_header_from_rows(file_path, p);
}

/// The list of unpriced models after an assistant message: a message the
/// price table prices, or one that names no model, leaves it as it was; an
/// unpriced message's model name is in it afterwards, appended at the end
/// when it was not there before.
pub proof fn lemma_unpriced_models(models: Seq<Seq<char>>, ae: AssistantEntry, cost: Option<JsonNumber>)
    ensures
        ({
            let out = crate::variants::models_after(models, Entry::Assistant(ae), cost);
            let name = match ae.message.model {
                Some(t) => t@,
                None => Seq::<char>::empty(),
            };
            &&& (cost is Some ==> out == models)
            &&& (name.len() == 0 ==> out == models)
            &&& (cost is None && name.len() > 0 && models.contains(name) ==> out == models)
            &&& (cost is None && name.len() > 0 && !models.contains(name) ==> out == models.push(name))
            &&& (cost is None && name.len() > 0 ==> out.contains(name))
        }),
{
    let name = match ae.message.model {
        Some(t) => t@,
        None => Seq::<char>::empty(),
    };
    if cost is None && name.len() > 0 && !models.contains(name) {
        assert(models.push(name)[models.len() as int] == name);
    }
}

// ─── Cleaning lines ──────────────────────────────────────────────────────

proof fn lemma_without_nul(s: Seq<char>)
    ensures
        forall|i: int| 0 <= i < without_nul(s).len() ==> #[trigger] without_nul(s)[i] != '\0',
    decreases s.len(),
{
    if s.len() > 0 {
        let p = without_nul(s.drop_last());
        lemma_without_nul(s.drop_last());
        if s.last() != '\0' {
            let out = p.push(s.last());
            assert forall|i: int| 0 <= i < out.len() implies #[trigger] out[i] != '\0' by {
                if i < p.len() {
                    assert(out[i] == p[i]);
                }
            }
        }
    }
}

proof fn lemma_leading_white(s: Seq<char>)
    ensures
        leading_white(s) <= s.len(),
        leading_white(s) < s.len() ==> !is_white_space(s[leading_white(s) as int]),
    decreases s.len(),
{
    if s.len() > 0 && is_white_space(s[0]) {
        lemma_leading_white(s.drop_first());
    }
}

proof fn lemma_trailing_white(s: Seq<char>)
    ensures
        trailing_white(s) <= s.len(),
        trailing_white(s) < s.len() ==> !is_white_space(s[s.len() - trailing_white(s) - 1]),
    decreases s.len(),
{
    if s.len() > 0 && is_white_space(s.last()) {
        lemma_trailing_white(s.drop_last());
    }
}

/// A cleaned line holds no NUL character, and neither its first nor its last
/// character is white space.
pub proof fn lemma_clean_line_shape(raw: Seq<char>)
    ensures
        forall|i: int| 0 <= i < trimmed(without_nul(raw)).len() ==> #[trigger] trimmed(without_nul(raw))[i] != '\0',
        trimmed(without_nul(raw)).len() > 0 ==> !is_white_space(trimmed(without_nul(raw))[0]),
        trimmed(without_nul(raw)).len() > 0 ==> !is_white_space(trimmed(without_nul(raw)).last()),
{
    let s = without_nul(raw);
    lemma_without_nul(raw);
    lemma_leading_white(s);
    let rest = s.skip(leading_white(s) as int);
    lemma_trailing_white(rest);
    let out = trimmed(s);
    assert(out == rest.take(rest.len() - trailing_white(rest)));
    assert forall|i: int| 0 <= i < out.len() implies #[trigger] out[i] != '\0' by {
        assert(out[i] == s[i + leading_white(s)]);
    }
    if out.len() > 0 {
        assert(out[0] == s[leading_white(s) as int]);
        assert(out.last() == rest[rest.len() - trailing_white(rest) - 1]);
    }
}

} // verus!
