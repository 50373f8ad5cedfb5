//! The settlement report: ten lines of text in a fixed order.

use vstd::prelude::*;
use vstd::string::StringExecFns;
use crate::amount::{
    amount_text, decimal_text, fixed_text, push_amount, push_decimal, COIN_DECIMALS,
    UNITS_PER_COIN,
};
use crate::provenance::{RecordView, SettlementRecord};
use crate::script::Party;

verus! {

/// The text that stands for a sender whose script names no address.
pub open spec fn undecodable_marker() -> Seq<char> {
    "Unable to decode"@
}

/// The ten fields of the report, in order.
pub open spec fn report_fields(record: RecordView) -> Seq<Seq<char>> {
    seq![
        record.txid,
        match record.sender_address {
            Some(a) => a,
            None => undecodable_marker(),
        },
        amount_text(record.sender_amount),
        record.receiver_address,
        amount_text(record.receiver_amount),
        match record.change_address {
            Some(a) => a,
            None => Seq::empty(),
        },
        amount_text(record.change_amount),
        amount_text(record.fee),
        decimal_text(record.block_height),
        record.block_hash,
    ]
}

/// Fields as lines: each field followed by a line feed.
pub open spec fn lines_text(fields: Seq<Seq<char>>) -> Seq<char>
    decreases fields.len(),
{
    if fields.len() == 0 {
        Seq::empty()
    } else {
        lines_text(fields.drop_last()) + fields.last().push('\n')
    }
}

/// The whole report.
pub open spec fn report_text(record: RecordView) -> Seq<char> {
    lines_text(report_fields(record))
}

fn end_line(text: &mut String)
    ensures
        final(text)@ == old(text)@.push('\n'),
{
    proof {
        reveal_strlit("\n");
    }
    text.append("\n");
    assert(final(text)@ =~= old(text)@.push('\n'));
}

/// Renders the record as the report: transaction id, sender address, sender
/// input amount, receiver address, receiver output amount, change address,
/// change amount, fee, block height, block hash, one per line.
pub fn render_report(record: &SettlementRecord) -> (text: String)
    ensures
        text@ == report_text(record@),
{
    let ghost fields = report_fields(record@);
    let mut text = String::new();
    assert(text@ =~= lines_text(fields.take(0)));
    let ghost before = text@;

    text.append(record.txid.as_str());
    end_line(&mut text);
    proof { lemma_line_added(fields, 0, before, text@); }
    let ghost before = text@;

    match &record.sender_address {
        Party::Address(a) => text.append(a.as_str()),
        Party::Undecodable => text.append("Unable to decode"),
    }
    end_line(&mut text);
    proof { lemma_line_added(fields, 1, before, text@); }
    let ghost before = text@;

    push_amount(&mut text, record.sender_amount);
    end_line(&mut text);
    proof { lemma_line_added(fields, 2, before, text@); }
    let ghost before = text@;

    text.append(record.receiver_address.as_str());
    end_line(&mut text);
    proof { lemma_line_added(fields, 3, before, text@); }
    let ghost before = text@;

    push_amount(&mut text, record.receiver_amount);
    end_line(&mut text);
    proof { lemma_line_added(fields, 4, before, text@); }
    let ghost before = text@;

    match &record.change_address {
        Some(a) => text.append(a.as_str()),
        None => {},
    }
    end_line(&mut text);
    proof { lemma_line_added(fields, 5, before, text@); }
    let ghost before = text@;

    push_amount(&mut text, record.change_amount);
    end_line(&mut text);
    proof { lemma_line_added(fields, 6, before, text@); }
    let ghost before = text@;

    push_amount(&mut text, record.fee);
    end_line(&mut text);
    proof { lemma_line_added(fields, 7, before, text@); }
    let ghost before = text@;

    push_decimal(&mut text, record.block_height as u64);
    end_line(&mut text);
    proof { lemma_line_added(fields, 8, before, text@); }
    let ghost before = text@;

    text.append(record.block_hash.as_str());
    end_line(&mut text);
    proof { lemma_line_added(fields, 9, before, text@); }

    assert(fields.take(10) =~= fields);
    text
}

proof fn lemma_line_added(fields: Seq<Seq<char>>, k: int, before: Seq<char>, text: Seq<char>)
    requires
        0 <= k < fields.len(),
        before == lines_text(fields.take(k)),
        text =~= before + fields[k].push('\n'),
    ensures
        text == lines_text(fields.take(k + 1)),
{
    assert(fields.take(k + 1).drop_last() =~= fields.take(k));
    assert(fields.take(k + 1).last() == fields[k]);
}

/// How many line feeds a text holds.
pub open spec fn line_feeds(text: Seq<char>) -> nat
    decreases text.len(),
{
    if text.len() == 0 {
        0
    } else if text.last() == '\n' {
        line_feeds(text.drop_last()) + 1
    } else {
        line_feeds(text.drop_last())
    }
}

/// The line feeds of two texts in a row are those of each.
pub proof fn lemma_line_feeds_add(a: Seq<char>, b: Seq<char>)
    ensures
        line_feeds(a + b) == line_feeds(a) + line_feeds(b),
    decreases b.len(),
{
    if b.len() == 0 {
        assert(a + b =~= a);
    } else {
        assert((a + b).drop_last() =~= a + b.drop_last());
        lemma_line_feeds_add(a, b.drop_last());
    }
}

/// A text without the line feed character holds no line feed.
pub proof fn lemma_no_line_feed(text: Seq<char>)
    requires
        forall|i: int| 0 <= i < text.len() ==> text[i] != '\n',
    ensures
        line_feeds(text) == 0,
    decreases text.len(),
{
    if text.len() > 0 {
        lemma_no_line_feed(text.drop_last());
    }
}

/// A number without leading zeros is written with digits only.
pub proof fn lemma_decimal_digits_only(n: nat)
    ensures
        forall|i: int| 0 <= i < decimal_text(n).len() ==> decimal_text(n)[i] != '\n',
    decreases n,
{
    if n >= 10 {
        lemma_decimal_digits_only(n / 10);
        let head = decimal_text(n / 10);
        assert forall|i: int| 0 <= i < decimal_text(n).len() implies decimal_text(n)[i]
            != '\n' by {
            if i < head.len() {
                assert(decimal_text(n)[i] == head[i]);
            }
        }
    }
}

/// A number of fixed width is written with that many digits, and digits
/// only.
pub proof fn lemma_fixed_digits_only(n: nat, width: nat)
    ensures
        fixed_text(n, width).len() == width,
        forall|i: int| 0 <= i < width ==> fixed_text(n, width)[i] != '\n',
    decreases width,
{
    if width > 0 {
        lemma_fixed_digits_only(n / 10, (width - 1) as nat);
        let head = fixed_text(n / 10, (width - 1) as nat);
        assert forall|i: int| 0 <= i < width implies fixed_text(n, width)[i] != '\n' by {
            if i < head.len() {
                assert(fixed_text(n, width)[i] == head[i]);
            }
        }
    }
}

/// An amount is written on one line, with eight places after the point.
pub proof fn lemma_amount_on_one_line(units: nat)
    ensures
        line_feeds(amount_text(units)) == 0,
        amount_text(units).len() >= 10,
        amount_text(units)[amount_text(units).len() - 9] == '.',
{
    let whole = units / (UNITS_PER_COIN as nat);
    let part = units % (UNITS_PER_COIN as nat);
    lemma_decimal_digits_only(whole);
    lemma_fixed_digits_only(part, COIN_DECIMALS as nat);
    lemma_no_line_feed(amount_text(units));
}

/// Fields that hold no line feed make as many lines as there are fields.
pub proof fn lemma_one_line_per_field(fields: Seq<Seq<char>>)
    requires
        forall|i: int| 0 <= i < fields.len() ==> line_feeds(#[trigger] fields[i]) == 0,
    ensures
        line_feeds(lines_text(fields)) == fields.len(),
    decreases fields.len(),
{
    if fields.len() > 0 {
        let rest = fields.drop_last();
        assert forall|i: int| 0 <= i < rest.len() implies line_feeds(#[trigger] rest[i]) == 0 by {
            assert(rest[i] == fields[i]);
        }
        lemma_one_line_per_field(rest);
        let line = fields.last().push('\n');
        assert(line.drop_last() =~= fields.last());
        assert(line_feeds(fields[fields.len() - 1]) == 0);
        lemma_line_feeds_add(lines_text(rest), line);
    }
}

/// The report has ten lines, one field on each, whenever the texts that the
/// node supplied (transaction id, addresses, block hash) hold no line feed.
pub proof fn theorem_report_has_ten_lines(record: RecordView)
    requires
        line_feeds(record.txid) == 0,
        record.sender_address matches Some(a) ==> line_feeds(a) == 0,
        line_feeds(record.receiver_address) == 0,
        record.change_address matches Some(a) ==> line_feeds(a) == 0,
        line_feeds(record.block_hash) == 0,
    ensures
        report_fields(record).len() == 10,
        line_feeds(report_text(record)) == 10,
{
    let fields = report_fields(record);
    lemma_amount_on_one_line(record.sender_amount);
    lemma_amount_on_one_line(record.receiver_amount);
    lemma_amount_on_one_line(record.change_amount);
    lemma_amount_on_one_line(record.fee);
    lemma_decimal_digits_only(record.block_height);
    lemma_no_line_feed(decimal_text(record.block_height));
    reveal_strlit("Unable to decode");
    lemma_no_line_feed(undecodable_marker());
    lemma_no_line_feed(Seq::<char>::empty());
    lemma_one_line_per_field(fields);
}

} // verus!
