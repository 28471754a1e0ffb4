//! The Planck keyboard layout and the chromatic pitch-to-key mapping.
//!
//! The keyboard is given as rows of key labels. Reading the rows left
//! to right and top to bottom yields one flat sequence of labels; the
//! mapping anchors a chosen base key to middle C (MIDI pitch 60) and
//! assigns consecutive pitches to consecutive labels.

use std::collections::HashMap;
use vstd::prelude::*;

verus! {

broadcast use vstd::std_specs::hash::group_hash_axioms;

/// The key labels of the keyboard, row by row.
pub type PlanckRows = Vec<Vec<String>>;

/// The MIDI pitch of middle C, the pitch that the base key is anchored to.
pub const MIDI_C_KEY: u8 = 60;

/// The rows read left to right and top to bottom, joined into one flat
/// sequence of labels.
pub open spec fn flat_labels(rows: Seq<Seq<Seq<char>>>) -> Seq<Seq<char>>
    decreases rows.len(),
{
    if rows.len() == 0 {
        Seq::empty()
    } else {
        flat_labels(rows.drop_last()) + rows.last()
    }
}

/// The position of the first occurrence of `key` in `labels`
/// (meaningful only when `labels` contains `key`).
pub open spec fn first_label_index(labels: Seq<Seq<char>>, key: Seq<char>) -> int
    decreases labels.len(),
{
    if labels.len() == 0 {
        0
    } else if labels[0] == key {
        0
    } else {
        1 + first_label_index(labels.drop_first(), key)
    }
}

proof fn lemma_first_label_index(labels: Seq<Seq<char>>, key: Seq<char>)
    requires
        labels.contains(key),
    ensures
        0 <= first_label_index(labels, key) < labels.len(),
        labels[first_label_index(labels, key)] == key,
        forall|j: int| 0 <= j < first_label_index(labels, key) ==> labels[j] != key,
    decreases labels.len(),
{
    if labels[0] == key {
    } else {
        assert(labels.drop_first().contains(key)) by {
            let w = choose|w: int| 0 <= w < labels.len() && labels[w] == key;
            assert(labels.drop_first()[w - 1] == key);
        }
        lemma_first_label_index(labels.drop_first(), key);
        let b = first_label_index(labels, key);
        assert(labels[b] == labels.drop_first()[b - 1]);
        assert forall|j: int| 0 <= j < b implies labels[j] != key by {
            if j > 0 {
                assert(labels[j] == labels.drop_first()[j - 1]);
            }
        }
    }
}

proof fn lemma_flat_take_step(rows: Seq<Seq<Seq<char>>>, i: int)
    requires
        0 <= i < rows.len(),
    ensures
        flat_labels(rows.take(i + 1)) == flat_labels(rows.take(i)) + rows[i],
{
    assert(rows.take(i + 1).drop_last() =~= rows.take(i));
    assert(rows.take(i + 1).last() == rows[i]);
}

proof fn lemma_flat_take_prefix(rows: Seq<Seq<Seq<char>>>, i: int)
    requires
        0 <= i <= rows.len(),
    ensures
        flat_labels(rows.take(i)).len() <= flat_labels(rows).len(),
        flat_labels(rows.take(i)) == flat_labels(rows).take(
            flat_labels(rows.take(i)).len() as int,
        ),
    decreases rows.len() - i,
{
    if i == rows.len() {
        assert(rows.take(i) =~= rows);
        assert(flat_labels(rows).take(flat_labels(rows).len() as int) =~= flat_labels(rows));
    } else {
        lemma_flat_take_prefix(rows, i + 1);
        lemma_flat_take_step(rows, i);
        let l0 = flat_labels(rows.take(i)).len() as int;
        let l1 = flat_labels(rows.take(i + 1)).len() as int;
        assert(l1 == l0 + rows[i].len());
        assert(flat_labels(rows.take(i)) =~= flat_labels(rows).take(l0));
    }
}

proof fn lemma_flat_position(rows: Seq<Seq<Seq<char>>>, i: int, j: int)
    requires
        0 <= i < rows.len(),
        0 <= j < rows[i].len(),
    ensures
        flat_labels(rows.take(i)).len() + j < flat_labels(rows).len(),
        flat_labels(rows)[flat_labels(rows.take(i)).len() + j] == rows[i][j],
{
    lemma_flat_take_step(rows, i);
    lemma_flat_take_prefix(rows, i + 1);
    let l0 = flat_labels(rows.take(i)).len() as int;
    let l1 = flat_labels(rows.take(i + 1)).len() as int;
    assert(flat_labels(rows.take(i + 1))[l0 + j] == rows[i][j]);
    assert(flat_labels(rows).take(l1)[l0 + j] == rows[i][j]);
}

/// The 12x4 Planck layout that the application ships with.
pub open spec fn spec_default_planck_rows() -> Seq<Seq<Seq<char>>> {
    seq![
        seq![
            "TAB"@, "Q"@, "W"@, "E"@, "R"@, "T"@, "Y"@, "U"@, "I"@, "O"@, "P"@, "BCK"@,
        ],
        seq!["ESC"@, "A"@, "S"@, "D"@, "F"@, "G"@, "H"@, "J"@, "K"@, "L"@, ";"@, "'"@],
        seq![
            "SHF"@, "Z"@, "X"@, "C"@, "V"@, "B"@, "N"@, "M"@, ","@, "."@, "/"@, "ETR"@,
        ],
        seq![
            ""@, "CTRL"@, "ALT"@, "ORYX"@, "OS"@, "SHFDOWN"@, "SPACE"@, "SHFUP"@, "<-"@,
            "\\/"@, "/\\"@, "->"@,
        ],
    ]
}

fn label_row(
    l0: &str,
    l1: &str,
    l2: &str,
    l3: &str,
    l4: &str,
    l5: &str,
    l6: &str,
    l7: &str,
    l8: &str,
    l9: &str,
    l10: &str,
    l11: &str,
) -> (row: Vec<String>)
    ensures
        row.deep_view() == seq![
            l0@, l1@, l2@, l3@, l4@, l5@, l6@, l7@, l8@, l9@, l10@, l11@,
        ],
{
    let mut row: Vec<String> = Vec::new();
    row.push(l0.to_owned());
    row.push(l1.to_owned());
    row.push(l2.to_owned());
    row.push(l3.to_owned());
    row.push(l4.to_owned());
    row.push(l5.to_owned());
    row.push(l6.to_owned());
    row.push(l7.to_owned());
    row.push(l8.to_owned());
    row.push(l9.to_owned());
    row.push(l10.to_owned());
    row.push(l11.to_owned());
    proof {
        assert(row.deep_view() =~= seq![
            l0@, l1@, l2@, l3@, l4@, l5@, l6@, l7@, l8@, l9@, l10@, l11@,
        ]);
    }
    row
}

/// The key labels of the stock Planck layout, row by row.
pub fn default_planck_rows() -> (rows: PlanckRows)
    ensures
        rows.deep_view() == spec_default_planck_rows(),
{
    let mut rows: PlanckRows = Vec::new();
    rows.push(label_row("TAB", "Q", "W", "E", "R", "T", "Y", "U", "I", "O", "P", "BCK"));
    rows.push(label_row("ESC", "A", "S", "D", "F", "G", "H", "J", "K", "L", ";", "'"));
    rows.push(label_row("SHF", "Z", "X", "C", "V", "B", "N", "M", ",", ".", "/", "ETR"));
    rows.push(
        label_row("", "CTRL", "ALT", "ORYX", "OS", "SHFDOWN", "SPACE", "SHFUP", "<-", "\\/",
            "/\\", "->"),
    );
    proof {
        assert(rows.deep_view() =~= spec_default_planck_rows());
    }
    rows
}

/// Maps MIDI pitches to key labels: the first occurrence of `base_key`
/// in the flattened rows is anchored to middle C, and every other label
/// is offset from it chromatically by its distance in the flat order.
/// A pitch is present exactly when its offset lands on a label and in
/// the range of a `u8`.
pub fn chromatic_planck_mapping(base_key: &str, rows: PlanckRows) -> (m: HashMap<u8, String>)
    requires
        flat_labels(rows.deep_view()).contains(base_key@),
        flat_labels(rows.deep_view()).len() + MIDI_C_KEY <= i32::MAX,
    ensures
        ({
            let labels = flat_labels(rows.deep_view());
            let base = first_label_index(labels, base_key@);
            &&& forall|k: u8| m@.contains_key(k) <==> 0 <= k + base - MIDI_C_KEY < labels.len()
            &&& forall|k: u8| m@.contains_key(k) ==> m@[k]@ == labels[k + base - MIDI_C_KEY]
        }),
{
    let ghost dv = rows.deep_view();
    let ghost labels = flat_labels(dv);
    let ghost base = first_label_index(labels, base_key@);
    proof {
        lemma_first_label_index(labels, base_key@);
    }
    let base_string: String = base_key.to_owned();

    let mut base_index: i32 = 0;
    let mut found_base_key = false;
    let mut ri: usize = 0;
    while ri < rows.len() && !found_base_key
        invariant
            dv == rows.deep_view(),
            labels == flat_labels(dv),
            base == first_label_index(labels, base_key@),
            labels.contains(base_key@),
            0 <= base < labels.len(),
            labels[base] == base_key@,
            forall|j: int| 0 <= j < base ==> labels[j] != base_key@,
            labels.len() + MIDI_C_KEY <= i32::MAX,
            base_string@ == base_key@,
            ri <= rows.len(),
            !found_base_key ==> base_index as int == flat_labels(dv.take(ri as int)).len(),
            !found_base_key ==> forall|j: int| 0 <= j < base_index ==> labels[j] != base_key@,
            !found_base_key ==> base_index as int <= labels.len(),
            found_base_key ==> base_index as int == base,
        decreases rows.len() - ri + (if found_base_key { 0int } else { 1int }),
    {
        let row = &rows[ri];
        let mut ci: usize = 0;
        proof {
            lemma_flat_take_prefix(dv, ri as int);
        }
        while ci < row.len() && !found_base_key
            invariant
                dv == rows.deep_view(),
                labels == flat_labels(dv),
                base == first_label_index(labels, base_key@),
                0 <= base < labels.len(),
                labels[base] == base_key@,
                forall|j: int| 0 <= j < base ==> labels[j] != base_key@,
                labels.len() + MIDI_C_KEY <= i32::MAX,
                base_string@ == base_key@,
                ri < rows.len(),
                ci <= row.len(),
                row == rows@[ri as int],
                row@.len() == dv[ri as int].len(),
                !found_base_key ==> base_index as int == flat_labels(dv.take(ri as int)).len()
                    + ci,
                !found_base_key ==> forall|j: int| 0 <= j < base_index ==> labels[j]
                    != base_key@,
                !found_base_key ==> base_index as int <= labels.len(),
                found_base_key ==> base_index as int == base,
            decreases row.len() - ci + (if found_base_key { 0int } else { 1int }),
        {
            proof {
                lemma_flat_position(dv, ri as int, ci as int);
            }
            if row[ci] == base_string {
                found_base_key = true;
                proof {
                    assert(labels[base_index as int] == dv[ri as int][ci as int]);
                    assert(labels[base_index as int] == base_key@);
                }
            } else {
                proof {
                    assert(labels[base_index as int] == dv[ri as int][ci as int]);
                }
                base_index = base_index + 1;
                ci = ci + 1;
            }
        }
        if !found_base_key {
            proof {
                lemma_flat_take_step(dv, ri as int);
            }
            ri = ri + 1;
        }
    }
    proof {
        if !found_base_key {
            assert(dv.take(dv.len() as int) =~= dv);
            assert(labels[base] == base_key@);
            assert(false);
        }
    }

    let mut key_to_keyboard_mapping: HashMap<u8, String> = HashMap::new();
    let mut index: i32 = 0;
    let mut ri: usize = 0;
    while ri < rows.len()
        invariant
            dv == rows.deep_view(),
            labels == flat_labels(dv),
            base == first_label_index(labels, base_key@),
            0 <= base < labels.len(),
            labels.len() + MIDI_C_KEY <= i32::MAX,
            base_index as int == base,
            ri <= rows.len(),
            index as int == flat_labels(dv.take(ri as int)).len(),
            index as int <= labels.len(),
            forall|k: u8| key_to_keyboard_mapping@.contains_key(k) <==> 0 <= k + base - MIDI_C_KEY
                < index as int,
            forall|k: u8| key_to_keyboard_mapping@.contains_key(k)
                ==> key_to_keyboard_mapping@[k]@ == labels[k + base - MIDI_C_KEY],
        decreases rows.len() - ri,
    {
        let row = &rows[ri];
        let mut ci: usize = 0;
        proof {
            lemma_flat_take_prefix(dv, ri as int);
        }
        while ci < row.len()
            invariant
                dv == rows.deep_view(),
                labels == flat_labels(dv),
                base == first_label_index(labels, base_key@),
                0 <= base < labels.len(),
                labels.len() + MIDI_C_KEY <= i32::MAX,
                base_index as int == base,
                ri < rows.len(),
                ci <= row.len(),
                row == rows@[ri as int],
                row@.len() == dv[ri as int].len(),
                index as int == flat_labels(dv.take(ri as int)).len() + ci,
                index as int <= labels.len(),
                forall|k: u8| key_to_keyboard_mapping@.contains_key(k) <==> 0 <= k + base
                    - MIDI_C_KEY < index as int,
                forall|k: u8| key_to_keyboard_mapping@.contains_key(k)
                    ==> key_to_keyboard_mapping@[k]@ == labels[k + base - MIDI_C_KEY],
            decreases row.len() - ci,
        {
            proof {
                lemma_flat_position(dv, ri as int, ci as int);
                assert(labels[index as int] == dv[ri as int][ci as int]);
            }
            let midi_key_i32: i32 = MIDI_C_KEY as i32 + (index - base_index);
            if midi_key_i32 >= 0 && midi_key_i32 <= 255 {
                let keyboard_key = row[ci].clone();
                key_to_keyboard_mapping.insert(midi_key_i32 as u8, keyboard_key);
            }
            index = index + 1;
            ci = ci + 1;
        }
        proof {
            lemma_flat_take_step(dv, ri as int);
        }
        ri = ri + 1;
    }
    proof {
        assert(dv.take(dv.len() as int) =~= dv);
    }
    key_to_keyboard_mapping
}

} // verus!
