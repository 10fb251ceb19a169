//! What is done with text.
use crate::root::Args;
use crate::songs;
use crate::songs::SongsState;
use crate::text;
use vstd::prelude::*;

verus! {

/// A text occurs in whatever has it anywhere.
pub proof fn a_text_occurs_where_it_stands(
    wanted: Seq<char>,
    before: Seq<char>,
    behind: Seq<char>,
)
    ensures
        text::occurs_in(wanted, before + wanted + behind),
{
    let hay = before + wanted + behind;
    assert(hay.subrange(before.len() as int, (before.len() + wanted.len()) as int) =~= wanted);
    assert(text::occurs_at(wanted, hay, before.len() as int));
}

/// A text that occurs has something before it and something behind it, and the three make
/// up the whole.
pub proof fn what_occurs_stands_somewhere(wanted: Seq<char>, hay: Seq<char>)
    requires
        text::occurs_in(wanted, hay),
    ensures
        exists|a: Seq<char>, b: Seq<char>| #[trigger] (a + wanted + b) == hay,
{
    let i = choose|i: int| text::occurs_at(wanted, hay, i);
    assert(text::occurs_at(wanted, hay, i));
    let a = hay.take(i);
    let b = hay.skip(i + wanted.len());
    assert(hay.subrange(i, i + wanted.len()) == wanted);
    assert(a + hay.subrange(i, i + wanted.len()) + b =~= hay);
    assert(a + wanted + b == hay);
}

/// The character is white space by its number.
pub open spec fn blank(c: char) -> bool {
    let n = c as u32;
    9 <= n <= 13 || n == 32 || n == 133 || n == 160 || n == 5760 || 8192 <= n <= 8202 || n == 8232
        || n == 8233 || n == 8239 || n == 8287 || n == 12288
}

/// A text that begins with no white space keeps its beginning, and one that ends with none
/// its end; white space before the one and behind the other goes.
pub proof fn trimming_takes_white_space_from_both_ends(s: Seq<char>, c: char)
    ensures
        text::trimmed_start(Seq::<char>::empty()).len() == 0,
        text::trimmed_end(Seq::<char>::empty()).len() == 0,
        blank(c) ==> text::trimmed_start(seq![c] + s) == text::trimmed_start(s),
        blank(c) ==> text::trimmed_end(s.push(c)) == text::trimmed_end(s),
        !blank(c) ==> text::trimmed_start(seq![c] + s) == seq![c] + s,
        !blank(c) ==> text::trimmed_end(s.push(c)) == s.push(c),
{
    assert((seq![c] + s).drop_first() =~= s);
    assert((seq![c] + s).first() == c);
    assert(s.push(c).drop_last() =~= s);
    assert(s.push(c).last() == c);
}

/// The root folder is read without the white space around it: whatever begins and ends
/// with something else, and has only white space before it and behind it in the text.
pub proof fn the_root_is_read_without_white_space(
    args: Args,
    before: Seq<char>,
    root: Seq<char>,
    behind: Seq<char>,
    dir: Option<String>,
)
    requires
        args.is_read_from(before + root + behind, dir),
        forall|i: int| 0 <= i < before.len() ==> blank(#[trigger] before[i]),
        forall|i: int| 0 <= i < behind.len() ==> blank(#[trigger] behind[i]),
        root.len() > 0 ==> !blank(root.first()) && !blank(root.last()),
    ensures
        args.root_dir@ == root,
        args.dir == dir,
{
    if root.len() > 0 {
        lemma_trimmed_start(before, root + behind);
        assert(before + (root + behind) =~= before + root + behind);
        lemma_trimmed_end(root, behind);
    } else {
        let all = before + behind;
        assert(before + root + behind =~= all);
        assert forall|i: int| 0 <= i < all.len() implies blank(#[trigger] all[i]) by {
            if i < before.len() {
                assert(all[i] == before[i]);
            } else {
                assert(all[i] == behind[i - before.len()]);
            }
        }
        lemma_trimmed_start_blank(all);
        assert(text::trimmed_end(Seq::<char>::empty()).len() == 0);
        assert(args.root_dir@ =~= root);
    }
}

proof fn lemma_trimmed_start(before: Seq<char>, rest: Seq<char>)
    requires
        forall|i: int| 0 <= i < before.len() ==> blank(#[trigger] before[i]),
        rest.len() > 0,
        !blank(rest.first()),
    ensures
        text::trimmed_start(before + rest) == rest,
    decreases before.len(),
{
    let whole = before + rest;
    if before.len() == 0 {
        assert(whole =~= rest);
    } else {
        assert(whole.first() == before[0]);
        assert(whole.drop_first() =~= before.drop_first() + rest);
        lemma_trimmed_start(before.drop_first(), rest);
    }
}

proof fn lemma_trimmed_end(rest: Seq<char>, behind: Seq<char>)
    requires
        forall|i: int| 0 <= i < behind.len() ==> blank(#[trigger] behind[i]),
        rest.len() > 0,
        !blank(rest.last()),
    ensures
        text::trimmed_end(rest + behind) == rest,
    decreases behind.len(),
{
    let whole = rest + behind;
    if behind.len() == 0 {
        assert(whole =~= rest);
    } else {
        assert(whole.last() == behind[behind.len() - 1]);
        assert(whole.drop_last() =~= rest + behind.drop_last());
        lemma_trimmed_end(rest, behind.drop_last());
    }
}

proof fn lemma_trimmed_start_blank(all: Seq<char>)
    requires
        forall|i: int| 0 <= i < all.len() ==> blank(#[trigger] all[i]),
    ensures
        text::trimmed_start(all).len() == 0,
    decreases all.len(),
{
    if all.len() > 0 {
        assert(blank(all[0]));
        assert forall|i: int| 0 <= i < all.drop_first().len() implies blank(
            #[trigger] all.drop_first()[i],
        ) by {
            assert(blank(all[i + 1]));
        }
        lemma_trimmed_start_blank(all.drop_first());
    }
}

/// The number that decimal digits stand for.
pub open spec fn value(digits: Seq<char>) -> int
    decreases digits.len(),
{
    if digits.len() == 0 {
        0
    } else {
        value(digits.drop_last()) * 10 + (digits.last() as u32 - 48)
    }
}

/// A number is written with digits only, without zeros before it, and stands for itself.
pub proof fn a_number_is_written_in_decimal(n: nat)
    ensures
        value(text::decimal(n)) == n,
        text::decimal(n).len() > 0,
        n > 0 ==> text::decimal(n)[0] != '0',
        forall|i: int|
            0 <= i < text::decimal(n).len() ==> '0' <= #[trigger] text::decimal(n)[i] <= '9',
    decreases n,
{
    let d = text::digit(n % 10);
    assert(d as u32 == 48 + n % 10) by {
        vstd::utf8::char_u32_cast(d, (48 + n % 10) as u32);
    }
    let s = text::decimal(n);
    reveal_with_fuel(value, 3);
    if n < 10 {
        assert(s.drop_last() =~= Seq::empty());
        assert(s.last() == d);
        assert(s[0] == d);
    } else {
        a_number_is_written_in_decimal(n / 10);
        assert(s.drop_last() =~= text::decimal(n / 10));
        assert(s[0] == text::decimal(n / 10)[0]);
        assert forall|i: int| 0 <= i < s.len() implies '0' <= #[trigger] s[i] <= '9' by {
            if i < s.len() - 1 {
                assert(s[i] == text::decimal(n / 10)[i]);
            }
        }
    }
}

/// What is known of the position stands before a stroke and what is known of the length
/// behind it, with a question mark for the one that is not known.
pub proof fn position_and_length_stand_around_a_stroke(
    position: Option<String>,
    duration: Option<String>,
)
    ensures
        position is Some || duration is Some ==> songs::position_text(position, duration) == (
        match position {
            Some(s) => s@,
            None => seq!['?'],
        }) + seq!['/'] + (match duration {
            Some(s) => s@,
            None => seq!['?'],
        }),
        position is None && duration is None ==> songs::position_text(position, duration)
            == "Unknown Playback Position"@,
{
    reveal_strlit("/");
    reveal_strlit("/?");
    reveal_strlit("?/");
    let whole = songs::position_text(position, duration);
    if position is Some || duration is Some {
        assert(whole =~= (match position {
            Some(s) => s@,
            None => seq!['?'],
        }) + seq!['/'] + (match duration {
            Some(s) => s@,
            None => seq!['?'],
        }));
    }
}

/// The text on the playback says how loud it is, whether it loops and where it is, each on
/// a line of its own.
pub proof fn the_playback_is_described_in_three_lines(
    s: SongsState,
    position: Option<String>,
    duration: Option<String>,
)
    ensures
        s.described(position, duration) == "Volume: "@ + text::decimal(
            s.playback_position.volume as nat,
        ) + seq!['\n'] + "Looping: "@ + (if s.playback_position.is_looping {
            "true"@
        } else {
            "false"@
        }) + seq!['\n'] + songs::position_text(position, duration),
{
    reveal_strlit("\nLooping: ");
    reveal_strlit("Looping: ");
    reveal_strlit("\n");
    assert("\nLooping: "@ =~= seq!['\n'] + "Looping: "@);
    assert("\n"@ =~= seq!['\n']);
    assert(s.described(position, duration) =~= "Volume: "@ + text::decimal(
        s.playback_position.volume as nat,
    ) + seq!['\n'] + "Looping: "@ + (if s.playback_position.is_looping {
        "true"@
    } else {
        "false"@
    }) + seq!['\n'] + songs::position_text(position, duration));
}

} // verus!
