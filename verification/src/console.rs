//! The administrator's command line: `rooms list`, `rooms create <name>
//! [max] [map] [mode]`, `rooms close <ref> [reason]`, `rooms info <ref>`,
//! `rooms set <ref> maxPlayers <n>`, `rooms rename <ref> <newName>`, `rooms
//! kick <ref> <player_id>` and `rooms move <player_id> <target_ref>`.

use vstd::prelude::*;
use vstd::string::StrSliceExecFns;

verus! {

/// Whether a character is white space, as Unicode has it.
pub open spec fn is_white_space(c: char) -> bool {
    let u = c as u32;
    ||| 0x09 <= u <= 0x0d
    ||| u == 0x20
    ||| u == 0x85
    ||| u == 0xa0
    ||| u == 0x1680
    ||| 0x2000 <= u <= 0x200a
    ||| u == 0x2028
    ||| u == 0x2029
    ||| u == 0x202f
    ||| u == 0x205f
    ||| u == 0x3000
}

/// Whether a character is white space.
pub fn white_space(c: char) -> (b: bool)
    ensures
        b == is_white_space(c),
{
    let u: u32 = c as u32;
    (0x09 <= u && u <= 0x0d) || u == 0x20 || u == 0x85 || u == 0xa0 || u == 0x1680 || (0x2000 <= u
        && u <= 0x200a) || u == 0x2028 || u == 0x2029 || u == 0x202f || u == 0x205f || u == 0x3000
}

/// The first place at or after `i` that holds no white space; the end of
/// the line where there is none.
pub open spec fn word_start(s: Seq<char>, i: int) -> int
    decreases s.len() - i,
{
    if i < 0 || i >= s.len() {
        s.len() as int
    } else if !is_white_space(s[i]) {
        i
    } else {
        word_start(s, i + 1)
    }
}

/// The first place at or after `i` that holds white space; the end of the
/// line where there is none.
pub open spec fn word_end(s: Seq<char>, i: int) -> int
    decreases s.len() - i,
{
    if i < 0 || i >= s.len() {
        s.len() as int
    } else if is_white_space(s[i]) {
        i
    } else {
        word_end(s, i + 1)
    }
}

/// A word starts at or after the place where it is looked for, and where
/// it starts there is no white space.
pub proof fn lemma_word_start(s: Seq<char>, i: int)
    requires
        0 <= i <= s.len(),
    ensures
        i <= word_start(s, i) <= s.len(),
        word_start(s, i) < s.len() ==> !is_white_space(s[word_start(s, i)]),
    decreases s.len() - i,
{
    if i < s.len() && is_white_space(s[i]) {
        lemma_word_start(s, i + 1);
    }
}

/// A word that starts where there is no white space ends after its start.
pub proof fn lemma_word_end(s: Seq<char>, i: int)
    requires
        0 <= i <= s.len(),
    ensures
        i <= word_end(s, i) <= s.len(),
        i < s.len() && !is_white_space(s[i]) ==> i < word_end(s, i),
    decreases s.len() - i,
{
    if i < s.len() && !is_white_space(s[i]) {
        lemma_word_end(s, i + 1);
    }
}

/// The words of the line from `from` on: the runs of characters between
/// white space.
pub open spec fn words_from(s: Seq<char>, from: int) -> Seq<Seq<char>>
    decreases s.len() - from,
{
    if from < 0 || word_start(s, from) >= s.len() {
        Seq::empty()
    } else {
        proof {
            lemma_word_start(s, from);
            lemma_word_end(s, word_start(s, from));
        }
        seq![s.subrange(word_start(s, from), word_end(s, word_start(s, from)))] + words_from(
            s,
            word_end(s, word_start(s, from)),
        )
    }
}

/// The words of a line.
pub open spec fn words(s: Seq<char>) -> Seq<Seq<char>> {
    words_from(s, 0)
}

/// The value of a decimal digit, if the character is one.
pub open spec fn digit_value(c: char) -> Option<nat> {
    if 48 <= c as u32 <= 57 {
        Some((c as u32 - 48) as nat)
    } else {
        None
    }
}

/// The number that a run of decimal digits stands for; none where a
/// character is no digit.
pub open spec fn digits_value(s: Seq<char>) -> Option<nat>
    decreases s.len(),
{
    if s.len() == 0 {
        Some(0)
    } else {
        match (digits_value(s.drop_last()), digit_value(s.last())) {
            (Some(v), Some(d)) => Some(v * 10 + d),
            _ => None,
        }
    }
}

/// The number that a word stands for: decimal digits, at least one, with
/// or without a plus sign before them. None where the word is anything
/// else or the number is greater than `max`.
pub open spec fn number_of(word: Seq<char>, max: nat) -> Option<nat> {
    let digits = if word.len() > 0 && word[0] == '+' {
        word.drop_first()
    } else {
        word
    };
    if digits.len() == 0 {
        None
    } else {
        match digits_value(digits) {
            Some(v) => if v <= max {
                Some(v)
            } else {
                None
            },
            None => None,
        }
    }
}

/// A run of digits stands for no less than any run that it starts with.
pub proof fn lemma_digits_grow(s: Seq<char>, k: int)
    requires
        0 <= k <= s.len(),
        digits_value(s) is Some,
    ensures
        digits_value(s.take(k)) is Some,
        digits_value(s.take(k))->0 <= digits_value(s)->0,
    decreases s.len(),
{
    if k < s.len() {
        lemma_digits_grow(s.drop_last(), k);
        assert(s.drop_last().take(k) =~= s.take(k));
    } else {
        assert(s.take(k) =~= s);
    }
}

/// A run that starts with something that is no run of digits is none.
pub proof fn lemma_digits_fail(s: Seq<char>, k: int)
    requires
        0 <= k <= s.len(),
        digits_value(s.take(k)) is None,
    ensures
        digits_value(s) is None,
    decreases s.len(),
{
    if k < s.len() {
        assert(s.drop_last().take(k) =~= s.take(k));
        lemma_digits_fail(s.drop_last(), k);
    } else {
        assert(s.take(k) =~= s);
    }
}

/// The number that `word` stands for, where it is one of at most `max`.
pub fn parse_number(word: &[char], max: u64) -> (n: Option<u64>)
    ensures
        match n {
            Some(v) => number_of(word@, max as nat) == Some(v as nat),
            None => number_of(word@, max as nat) is None,
        },
{
    let start: usize = if word.len() > 0 && word[0] == '+' {
        1
    } else {
        0
    };
    if start == word.len() {
        return None;
    }
    let ghost digits = word@.subrange(start as int, word@.len() as int);
    proof {
        if start == 1 {
            assert(digits =~= word@.drop_first());
        } else {
            assert(digits =~= word@);
        }
    }
    let mut acc: u64 = 0;
    let mut i: usize = start;
    assert(digits.take(0) =~= Seq::<char>::empty());
    while i < word.len()
        invariant
            start <= i <= word@.len(),
            digits == word@.subrange(start as int, word@.len() as int),
            digits == if word@.len() > 0 && word@[0] == '+' {
                word@.drop_first()
            } else {
                word@
            },
            digits.len() > 0,
            digits_value(digits.take(i - start)) == Some(acc as nat),
            acc <= max,
        decreases word@.len() - i,
    {
        let c: char = word[i];
        let u: u32 = c as u32;
        proof {
            assert(digits.take(i - start + 1).drop_last() =~= digits.take(i - start));
            assert(digits.take(i - start + 1).last() == c);
        }
        if u < 48 || u > 57 {
            proof {
                assert(digit_value(c) is None);
                assert(digits_value(digits.take(i - start + 1)) is None);
                lemma_digits_fail(digits, i - start + 1);
            }
            return None;
        }
        let d: u64 = (u - 48) as u64;
        proof {
            assert(digit_value(c) == Some(d as nat));
            assert(digits_value(digits.take(i - start + 1)) == Some((acc * 10 + d) as nat));
        }
        let next: Option<u64> = match acc.checked_mul(10) {
            Some(scaled) => scaled.checked_add(d),
            None => None,
        };
        match next {
            Some(v) => {
                if v > max {
                    proof {
                        if digits_value(digits) is Some {
                            lemma_digits_grow(digits, i - start + 1);
                        }
                    }
                    return None;
                }
                acc = v;
            },
            None => {
                proof {
                    if digits_value(digits) is Some {
                        lemma_digits_grow(digits, i - start + 1);
                    }
                }
                return None;
            },
        }
        i = i + 1;
    }
    proof {
        assert(digits.take(digits.len() as int) =~= digits);
    }
    Some(acc)
}

/// What an administrator asks for.
#[derive(Clone, Debug, PartialEq)]
pub enum AdminCommand {
    /// The line is no rooms command; it is passed over.
    NotForRooms,
    /// The line names no command; the commands are to be listed.
    Usage,
    List,
    Create { name: String, max_players: usize, map_id: String, mode: String },
    /// The reason is the word after the room where there is one.
    Close { room_ref: String, reason: String },
    Info { room_ref: String },
    /// The new limit is none where the word for it is no number.
    SetMaxPlayers { room_ref: String, new_limit: Option<usize> },
    Rename { room_ref: String, new_name: String },
    /// The player is none where the word for it is no number.
    Kick { room_ref: String, player_id: Option<u64> },
    /// The player is none where the word for it is no number.
    Move { player_id: Option<u64>, target_ref: String },
    /// The line names a command that there is not, or too few words for it.
    Unknown,
}

/// The model of an [`AdminCommand`].
pub ghost enum AdminCommandView {
    NotForRooms,
    Usage,
    List,
    Create { name: Seq<char>, max_players: usize, map_id: Seq<char>, mode: Seq<char> },
    Close { room_ref: Seq<char>, reason: Seq<char> },
    Info { room_ref: Seq<char> },
    SetMaxPlayers { room_ref: Seq<char>, new_limit: Option<usize> },
    Rename { room_ref: Seq<char>, new_name: Seq<char> },
    Kick { room_ref: Seq<char>, player_id: Option<u64> },
    Move { player_id: Option<u64>, target_ref: Seq<char> },
    Unknown,
}

impl View for AdminCommand {
    type V = AdminCommandView;

    open spec fn view(&self) -> AdminCommandView {
        match *self {
            AdminCommand::NotForRooms => AdminCommandView::NotForRooms,
            AdminCommand::Usage => AdminCommandView::Usage,
            AdminCommand::List => AdminCommandView::List,
            AdminCommand::Create { name, max_players, map_id, mode } => AdminCommandView::Create {
                name: name@,
                max_players,
                map_id: map_id@,
                mode: mode@,
            },
            AdminCommand::Close { room_ref, reason } => AdminCommandView::Close {
                room_ref: room_ref@,
                reason: reason@,
            },
            AdminCommand::Info { room_ref } => AdminCommandView::Info { room_ref: room_ref@ },
            AdminCommand::SetMaxPlayers { room_ref, new_limit } => {
                AdminCommandView::SetMaxPlayers { room_ref: room_ref@, new_limit }
            },
            AdminCommand::Rename { room_ref, new_name } => AdminCommandView::Rename {
                room_ref: room_ref@,
                new_name: new_name@,
            },
            AdminCommand::Kick { room_ref, player_id } => AdminCommandView::Kick {
                room_ref: room_ref@,
                player_id,
            },
            AdminCommand::Move { player_id, target_ref } => AdminCommandView::Move {
                player_id,
                target_ref: target_ref@,
            },
            AdminCommand::Unknown => AdminCommandView::Unknown,
        }
    }
}

/// Whether a line starts with `rooms`.
pub open spec fn starts_with_rooms(s: Seq<char>) -> bool {
    &&& s.len() >= 5
    &&& s[0] == 'r'
    &&& s[1] == 'o'
    &&& s[2] == 'o'
    &&& s[3] == 'm'
    &&& s[4] == 's'
}

/// The number that a word stands for as a player limit.
pub open spec fn limit_of(word: Seq<char>) -> Option<usize> {
    match number_of(word, usize::MAX as nat) {
        Some(v) => Some(v as usize),
        None => None,
    }
}

/// The number that a word stands for as a player id.
pub open spec fn player_of(word: Seq<char>) -> Option<u64> {
    match number_of(word, u64::MAX as nat) {
        Some(v) => Some(v as u64),
        None => None,
    }
}

/// The command that a line stands for. A line that does not start with
/// `rooms` is passed over. The second word names the command, the words
/// after it are what the command takes. A room is created for 8 players on
/// the map `dm2` in the mode `deathmatch` where the line says nothing else,
/// and a room is closed for the reason `admin_close` where the line gives none.
pub open spec fn command_of(line: Seq<char>) -> AdminCommandView {
    let w = words(line);
    if !starts_with_rooms(line) {
        AdminCommandView::NotForRooms
    } else if w.len() < 2 {
        AdminCommandView::Usage
    } else if w[1] == "list"@ {
        AdminCommandView::List
    } else if w[1] == "create"@ && w.len() >= 3 {
        AdminCommandView::Create {
            name: w[2],
            max_players: if w.len() >= 4 && limit_of(w[3]) is Some {
                limit_of(w[3])->0
            } else {
                8
            },
            map_id: if w.len() >= 5 {
                w[4]
            } else {
                "dm2"@
            },
            mode: if w.len() >= 6 {
                w[5]
            } else {
                "deathmatch"@
            },
        }
    } else if w[1] == "close"@ && w.len() >= 3 {
        AdminCommandView::Close {
            room_ref: w[2],
            reason: if w.len() >= 4 {
                w[3]
            } else {
                "admin_close"@
            },
        }
    } else if w[1] == "info"@ && w.len() >= 3 {
        AdminCommandView::Info { room_ref: w[2] }
    } else if w[1] == "set"@ && w.len() >= 5 && w[3] == "maxPlayers"@ {
        AdminCommandView::SetMaxPlayers { room_ref: w[2], new_limit: limit_of(w[4]) }
    } else if w[1] == "rename"@ && w.len() >= 4 {
        AdminCommandView::Rename { room_ref: w[2], new_name: w[3] }
    } else if w[1] == "kick"@ && w.len() >= 4 {
        AdminCommandView::Kick { room_ref: w[2], player_id: player_of(w[3]) }
    } else if w[1] == "move"@ && w.len() >= 4 {
        AdminCommandView::Move { player_id: player_of(w[2]), target_ref: w[3] }
    } else {
        AdminCommandView::Unknown
    }
}

/// The characters of a line.
fn chars_of(line: &str) -> (chars: Vec<char>)
    ensures
        chars@ == line@,
{
    let n: usize = line.unicode_len();
    let mut chars: Vec<char> = Vec::new();
    let mut i: usize = 0;
    while i < n
        invariant
            i <= n,
            n == line@.len(),
            chars@ == line@.take(i as int),
        decreases n - i,
    {
        chars.push(line.get_char(i));
        assert(chars@ =~= line@.take(i + 1));
        i = i + 1;
    }
    assert(line@.take(n as int) =~= line@);
    chars
}

/// What the pairs of a list hold of `s`: the run from the first of each
/// pair to its second.
pub open spec fn runs_of(s: Seq<char>, ranges: Seq<(usize, usize)>) -> Seq<Seq<char>> {
    Seq::new(ranges.len(), |i: int| s.subrange(ranges[i].0 as int, ranges[i].1 as int))
}

/// Where the words of a line start and end.
fn split_words(chars: &[char]) -> (ranges: Vec<(usize, usize)>)
    ensures
        runs_of(chars@, ranges@) == words(chars@),
        forall|i: int|
            0 <= i < ranges@.len() ==> (#[trigger] ranges@[i]).0 <= ranges@[i].1 <= chars@.len(),
{
    let mut ranges: Vec<(usize, usize)> = Vec::new();
    let mut at: usize = 0;
    assert(runs_of(chars@, ranges@) + words_from(chars@, 0) =~= words(chars@));
    loop
        invariant
            at <= chars@.len(),
            words(chars@) == runs_of(chars@, ranges@) + words_from(chars@, at as int),
            forall|i: int|
                0 <= i < ranges@.len() ==> (#[trigger] ranges@[i]).0 <= ranges@[i].1
                    <= chars@.len(),
        decreases chars@.len() - at,
    {
        let mut a: usize = at;
        while a < chars.len() && white_space(chars[a])
            invariant
                at <= a <= chars@.len(),
                word_start(chars@, at as int) == word_start(chars@, a as int),
            decreases chars@.len() - a,
        {
            a = a + 1;
        }
        if a >= chars.len() {
            proof {
                assert(words_from(chars@, at as int) =~= Seq::<Seq<char>>::empty());
                assert(runs_of(chars@, ranges@) + Seq::<Seq<char>>::empty() =~= runs_of(
                    chars@,
                    ranges@,
                ));
            }
            return ranges;
        }
        let mut b: usize = a;
        while b < chars.len() && !white_space(chars[b])
            invariant
                a <= b <= chars@.len(),
                word_end(chars@, a as int) == word_end(chars@, b as int),
            decreases chars@.len() - b,
        {
            b = b + 1;
        }
        let ghost shown = runs_of(chars@, ranges@);
        proof {
            lemma_word_end(chars@, a as int);
            assert(a == word_start(chars@, at as int));
            assert(b == word_end(chars@, a as int));
        }
        ranges.push((a, b));
        proof {
            assert(runs_of(chars@, ranges@) =~= shown.push(chars@.subrange(a as int, b as int)));
            assert(words_from(chars@, at as int) == seq![chars@.subrange(a as int, b as int)]
                + words_from(chars@, b as int));
            assert(words(chars@) =~= runs_of(chars@, ranges@) + words_from(chars@, b as int));
        }
        at = b;
    }
}

/// The command that a line of the administrator stands for: see [`command_of`].
pub fn parse_admin_command(line: &str) -> (cmd: AdminCommand)
    ensures
        cmd@ == command_of(line@),
{
    let chars: Vec<char> = chars_of(line);
    if !(chars.len() >= 5 && chars[0] == 'r' && chars[1] == 'o' && chars[2] == 'o' && chars[3]
        == 'm' && chars[4] == 's') {
        return AdminCommand::NotForRooms;
    }
    let ranges: Vec<(usize, usize)> = split_words(chars.as_slice());
    let ghost w = words(line@);
    if ranges.len() < 2 {
        return AdminCommand::Usage;
    }
    let mut parts: Vec<&str> = Vec::new();
    let mut i: usize = 0;
    while i < ranges.len()
        invariant
            i <= ranges@.len(),
            chars@ == line@,
            w == runs_of(chars@, ranges@),
            parts@.len() == i,
            forall|k: int|
                0 <= k < ranges@.len() ==> (#[trigger] ranges@[k]).0 <= ranges@[k].1
                    <= chars@.len(),
            forall|k: int| 0 <= k < i ==> (#[trigger] parts@[k])@ == w[k],
        decreases ranges@.len() - i,
    {
        parts.push(line.substring_char(ranges[i].0, ranges[i].1));
        i = i + 1;
    }
    let n: usize = parts.len();
    let verb: &str = parts[1];
    if crate::text::str_eq(verb, "list") {
        AdminCommand::List
    } else if crate::text::str_eq(verb, "create") && n >= 3 {
        let max_players: usize = if n >= 4 {
            match word_number(&chars, ranges[3], usize::MAX as u64) {
                Some(v) => v as usize,
                None => 8,
            }
        } else {
            8
        };
        AdminCommand::Create {
            name: parts[2].to_owned(),
            max_players,
            map_id: if n >= 5 {
                parts[4].to_owned()
            } else {
                "dm2".to_owned()
            },
            mode: if n >= 6 {
                parts[5].to_owned()
            } else {
                "deathmatch".to_owned()
            },
        }
    } else if crate::text::str_eq(verb, "close") && n >= 3 {
        AdminCommand::Close {
            room_ref: parts[2].to_owned(),
            reason: if n >= 4 {
                parts[3].to_owned()
            } else {
                "admin_close".to_owned()
            },
        }
    } else if crate::text::str_eq(verb, "info") && n >= 3 {
        AdminCommand::Info { room_ref: parts[2].to_owned() }
    } else if crate::text::str_eq(verb, "set") && n >= 5 && crate::text::str_eq(
        parts[3],
        "maxPlayers",
    ) {
        AdminCommand::SetMaxPlayers {
            room_ref: parts[2].to_owned(),
            new_limit: match word_number(&chars, ranges[4], usize::MAX as u64) {
                Some(v) => Some(v as usize),
                None => None,
            },
        }
    } else if crate::text::str_eq(verb, "rename") && n >= 4 {
        AdminCommand::Rename { room_ref: parts[2].to_owned(), new_name: parts[3].to_owned() }
    } else if crate::text::str_eq(verb, "kick") && n >= 4 {
        AdminCommand::Kick {
            room_ref: parts[2].to_owned(),
            player_id: word_number(&chars, ranges[3], u64::MAX),
        }
    } else if crate::text::str_eq(verb, "move") && n >= 4 {
        AdminCommand::Move {
            player_id: word_number(&chars, ranges[2], u64::MAX),
            target_ref: parts[3].to_owned(),
        }
    } else {
        AdminCommand::Unknown
    }
}

/// The number that the word between `range.0` and `range.1` stands for.
fn word_number(chars: &Vec<char>, range: (usize, usize), max: u64) -> (n: Option<u64>)
    requires
        range.0 <= range.1 <= chars@.len(),
    ensures
        match n {
            Some(v) => number_of(chars@.subrange(range.0 as int, range.1 as int), max as nat)
                == Some(v as nat),
            None => number_of(chars@.subrange(range.0 as int, range.1 as int), max as nat)
                is None,
        },
{
    parse_number(vstd::slice::slice_subrange(chars.as_slice(), range.0, range.1), max)
}

} // verus!
