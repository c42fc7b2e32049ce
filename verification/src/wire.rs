//! The lines of the protocol: how a received line is read, and how a
//! command is written.
//!
//! A received line, without its line ending, is an optional prefix behind a
//! colon, a command word and parameters, all parted by spaces; a parameter
//! that begins with a colon takes the rest of the line, spaces and all. A
//! command word of three digits is a numeric reply. A `PRIVMSG` or `NOTICE`
//! whose text begins with the byte 1 carries a CTCP message.

use vstd::prelude::*;
use vstd::string::*;
use crate::bytes::{ascii, ascii_bytes, same_bytes};
use crate::config::ServerConfig;
use crate::control::{Command, CommandView};
use crate::event::{CommandKind, CommandKindView, Line, LineView, User, UserView, args_view};

verus! {

/// The space that parts the words of a line.
pub const SPACE: u8 = 32;

/// The colon that opens a prefix and the last parameter.
pub const COLON: u8 = 58;

/// The `!` that stands before the user name in a prefix.
pub const BANG: u8 = 33;

/// The `@` that stands before the host in a prefix.
pub const AT: u8 = 64;

/// The byte that stands before and behind a CTCP message.
pub const CTCP_MARK: u8 = 1;

/// The carriage return of a line ending.
pub const CR: u8 = 13;

/// The line feed of a line ending.
pub const LF: u8 = 10;

/// The first place at or behind `from` where `s` holds `byte`; the length of
/// `s` where there is none.
pub open spec fn find(s: Seq<u8>, byte: u8, from: int) -> int
    decreases s.len() - from,
{
    if from < 0 || from >= s.len() {
        s.len() as int
    } else if s[from] == byte {
        from
    } else {
        find(s, byte, from + 1)
    }
}

/// `find` stays within the sequence and does not go back, and no `byte`
/// stands between `from` and the place that it gives.
pub proof fn lemma_find(s: Seq<u8>, byte: u8, from: int)
    requires
        0 <= from <= s.len(),
    ensures
        from <= find(s, byte, from) <= s.len(),
        find(s, byte, from) < s.len() ==> s[find(s, byte, from)] == byte,
        forall|k: int| from <= k < find(s, byte, from) ==> s[k] != byte,
    decreases s.len() - from,
{
    if from < s.len() && s[from] != byte {
        lemma_find(s, byte, from + 1);
    }
}

/// The parameters that `s` holds from `from` on.
pub open spec fn params(s: Seq<u8>, from: int) -> Seq<Seq<u8>>
    decreases s.len() - from,
{
    if from < 0 || from >= s.len() {
        Seq::empty()
    } else if s[from] == SPACE {
        params(s, from + 1)
    } else if s[from] == COLON {
        seq![s.subrange(from + 1, s.len() as int)]
    } else {
        proof {
            lemma_find(s, SPACE, from + 1);
        }
        let end = find(s, SPACE, from + 1);
        seq![s.subrange(from, end)] + params(s, end)
    }
}

/// The place of `byte` in `s` at or behind `from`, or the length of `s`.
pub fn find_byte(s: &Vec<u8>, byte: u8, from: usize) -> (place: usize)
    ensures
        place == find(s@, byte, from as int),
        place <= s.len(),
        from <= s.len() ==> from <= place,
{
    if from >= s.len() {
        return s.len();
    }
    let mut place = from;
    while place < s.len() && s[place] != byte
        invariant
            from <= place <= s.len(),
            find(s@, byte, from as int) == find(s@, byte, place as int),
        decreases s.len() - place,
    {
        place += 1;
    }
    place
}

/// The bytes of `s` from `from` up to `to`.
pub(crate) fn slice(s: &Vec<u8>, from: usize, to: usize) -> (part: Vec<u8>)
    requires
        from <= to <= s.len(),
    ensures
        part@ == s@.subrange(from as int, to as int),
{
    let mut part: Vec<u8> = Vec::new();
    let mut i = from;
    while i < to
        invariant
            from <= i <= to,
            to <= s.len(),
            part@ == s@.subrange(from as int, i as int),
        decreases to - i,
    {
        part.push(s[i]);
        i += 1;
        assert(part@ =~= s@.subrange(from as int, i as int));
    }
    part
}

/// The parameters that `s` holds from `from` on.
pub fn read_params(s: &Vec<u8>, from: usize) -> (list: Vec<Vec<u8>>)
    ensures
        args_view(list@) == params(s@, from as int),
{
    let mut list: Vec<Vec<u8>> = Vec::new();
    if from >= s.len() {
        assert(args_view(list@) =~= params(s@, from as int));
        return list;
    }
    let mut at = from;
    loop
        invariant_except_break
            args_view(list@) + params(s@, at as int) == params(s@, from as int),
        invariant
            from <= at <= s.len(),
        ensures
            args_view(list@) == params(s@, from as int),
        decreases s.len() - at,
    {
        if at >= s.len() {
            assert(args_view(list@) + params(s@, at as int) =~= args_view(list@));
            break;
        }
        if s[at] == SPACE {
            at += 1;
        } else if s[at] == COLON {
            let ghost before = args_view(list@);
            let rest = slice(s, at + 1, s.len());
            list.push(rest);
            assert(args_view(list@) =~= before + params(s@, at as int));
            break;
        } else {
            let ghost before = args_view(list@);
            let end = find_byte(s, SPACE, at + 1);
            let word = slice(s, at, end);
            list.push(word);
            assert(args_view(list@) + params(s@, end as int) =~= before + params(s@, at as int));
            at = end;
        }
    }
    list
}

/// The first place at or behind `from` where `s` holds no space; the length
/// of `s` where only spaces follow.
pub open spec fn skip_spaces(s: Seq<u8>, from: int) -> int
    decreases s.len() - from,
{
    if from < 0 || from >= s.len() {
        s.len() as int
    } else if s[from] != SPACE {
        from
    } else {
        skip_spaces(s, from + 1)
    }
}

/// The place of the first byte of `s` at or behind `from` that is no space.
pub fn skip_space_bytes(s: &Vec<u8>, from: usize) -> (place: usize)
    ensures
        place == skip_spaces(s@, from as int),
        place <= s.len(),
        from <= s.len() ==> from <= place,
{
    if from >= s.len() {
        return s.len();
    }
    let mut place = from;
    while place < s.len() && s[place] == SPACE
        invariant
            from <= place <= s.len(),
            skip_spaces(s@, from as int) == skip_spaces(s@, place as int),
        decreases s.len() - place,
    {
        place += 1;
    }
    place
}

/// The user that a prefix names: the nickname up to the first `!` or `@`,
/// the user name between the two, the host behind the `@`.
pub open spec fn user_of(prefix: Seq<u8>) -> UserView {
    let bang = find(prefix, BANG, 0);
    let at = find(prefix, AT, 0);
    UserView {
        raw: prefix,
        nick: prefix.subrange(
            0,
            if bang < at {
                bang
            } else {
                at
            },
        ),
        user: if bang < at {
            Some(prefix.subrange(bang + 1, at))
        } else {
            None
        },
        host: if at < prefix.len() {
            Some(prefix.subrange(at + 1, prefix.len() as int))
        } else {
            None
        },
    }
}

/// The user that `prefix` names.
pub fn read_user(prefix: Vec<u8>) -> (user: User)
    ensures
        user@ == user_of(prefix@),
{
    let bang = find_byte(&prefix, BANG, 0);
    let at = find_byte(&prefix, AT, 0);
    let nick = slice(&prefix, 0, if bang < at { bang } else { at });
    let name = if bang < at {
        Some(slice(&prefix, bang + 1, at))
    } else {
        None
    };
    let host = if at < prefix.len() {
        Some(slice(&prefix, at + 1, prefix.len()))
    } else {
        None
    };
    User { raw: prefix, nick, user: name, host }
}

/// Whether `byte` is an ASCII digit.
pub open spec fn is_digit(byte: u8) -> bool {
    48 <= byte <= 57
}

/// The code of a numeric reply, where `word` is three digits.
pub open spec fn numeric_code(word: Seq<u8>) -> Option<nat> {
    if word.len() == 3 && is_digit(word[0]) && is_digit(word[1]) && is_digit(word[2]) {
        Some(((word[0] - 48) * 100 + (word[1] - 48) * 10 + (word[2] - 48)) as nat)
    } else {
        None
    }
}

/// The CTCP message that `text` carries: what stands behind the mark at its
/// front, up to the mark at its end where it has one.
pub open spec fn ctcp_message(text: Seq<u8>) -> Option<Seq<u8>> {
    if text.len() > 0 && text[0] == CTCP_MARK {
        if text.len() > 1 && text[text.len() - 1] == CTCP_MARK {
            Some(text.subrange(1, text.len() - 1))
        } else {
            Some(text.subrange(1, text.len() as int))
        }
    } else {
        None
    }
}

/// What a command word and its parameters stand for, and the arguments
/// that remain.
///
/// A CTCP message in a `PRIVMSG` is an action where its first word is
/// `ACTION` and a query otherwise; one in a `NOTICE` is a reply. What
/// follows its first word is the one argument that remains, if anything
/// follows.
pub open spec fn read_command(word: Seq<u8>, list: Seq<Seq<u8>>) -> (CommandKindView, Seq<Seq<u8>>) {
    if numeric_code(word) is Some {
        (CommandKindView::Code(numeric_code(word)->0), list)
    } else if (word == ascii("PRIVMSG"@) || word == ascii("NOTICE"@)) && list.len() == 2
        && ctcp_message(list[1]) is Some {
        let message = ctcp_message(list[1])->0;
        let space = find(message, SPACE, 0);
        let name = message.subrange(0, space);
        let rest = if space < message.len() {
            seq![message.subrange(space + 1, message.len() as int)]
        } else {
            Seq::empty()
        };
        if word == ascii("NOTICE"@) {
            (CommandKindView::CtcpReply { command: name, dst: list[0] }, rest)
        } else if name == ascii("ACTION"@) {
            (CommandKindView::Action { dst: list[0] }, rest)
        } else {
            (CommandKindView::Ctcp { command: name, dst: list[0] }, rest)
        }
    } else {
        (CommandKindView::Named(word), list)
    }
}

/// The line that the bytes `line` make; none where they hold no command word.
pub open spec fn parse(line: Seq<u8>) -> Option<LineView> {
    let with_prefix = line.len() > 0 && line[0] == COLON;
    let prefix_end = find(line, SPACE, 0);
    let start = skip_spaces(
        line,
        if with_prefix {
            prefix_end
        } else {
            0
        },
    );
    let end = find(line, SPACE, start);
    if start >= line.len() {
        None
    } else {
        let (command, args) = read_command(line.subrange(start, end), params(line, end));
        Some(
            LineView {
                command,
                args,
                prefix: if with_prefix {
                    Some(user_of(line.subrange(1, prefix_end)))
                } else {
                    None
                },
            },
        )
    }
}

/// The line behind a line that may not be there.
pub open spec fn parsed_view(parsed: Option<Line>) -> Option<LineView> {
    match parsed {
        Some(line) => Some(line@),
        None => None,
    }
}

/// The code of a numeric reply, where `word` is three digits.
fn read_code(word: &Vec<u8>) -> (code: Option<u32>)
    ensures
        match code {
            Some(n) => numeric_code(word@) == Some(n as nat),
            None => numeric_code(word@) is None,
        },
{
    if word.len() != 3 {
        return None;
    }
    let (a, b, c) = (word[0], word[1], word[2]);
    if 48 <= a && a <= 57 && 48 <= b && b <= 57 && 48 <= c && c <= 57 {
        Some(((a - 48) as u32) * 100 + ((b - 48) as u32) * 10 + ((c - 48) as u32))
    } else {
        None
    }
}

/// What `word` and its parameters stand for, and the arguments that remain.
fn classify(word: Vec<u8>, list: Vec<Vec<u8>>) -> (read: (CommandKind, Vec<Vec<u8>>))
    ensures
        (read.0@, args_view(read.1@)) == read_command(word@, args_view(list@)),
{
    proof {
        reveal_strlit("PRIVMSG");
        reveal_strlit("NOTICE");
        reveal_strlit("ACTION");
    }
    if let Some(code) = read_code(&word) {
        return (CommandKind::Code(code), list);
    }
    let notice = same_bytes(&word, &ascii_bytes("NOTICE"));
    let message = same_bytes(&word, &ascii_bytes("PRIVMSG"));
    if (message || notice) && list.len() == 2 && list[1].len() > 0 && list[1][0] == CTCP_MARK {
        let text = &list[1];
        let end = if text.len() > 1 && text[text.len() - 1] == CTCP_MARK {
            text.len() - 1
        } else {
            text.len()
        };
        let body = slice(text, 1, end);
        assert(ctcp_message(text@) == Some(body@));
        assert(args_view(list@)[1] == text@);
        let space = find_byte(&body, SPACE, 0);
        let name = slice(&body, 0, space);
        let mut rest: Vec<Vec<u8>> = Vec::new();
        if space < body.len() {
            rest.push(slice(&body, space + 1, body.len()));
            assert(args_view(rest@) =~= seq![body@.subrange(space + 1, body@.len() as int)]);
        } else {
            assert(args_view(rest@) =~= Seq::<Seq<u8>>::empty());
        }
        let dst = list[0].clone();
        assert(args_view(list@)[0] == dst@);
        if notice {
            (CommandKind::CtcpReply { command: name, dst }, rest)
        } else if same_bytes(&name, &ascii_bytes("ACTION")) {
            (CommandKind::Action { dst }, rest)
        } else {
            (CommandKind::Ctcp { command: name, dst }, rest)
        }
    } else {
        proof {
            if list@.len() == 2 {
                assert(args_view(list@)[1] == list@[1]@);
            }
        }
        (CommandKind::Named(word), list)
    }
}

/// Reads one received line, given without its line ending.
pub fn parse_line(line: &Vec<u8>) -> (parsed: Option<Line>)
    ensures
        parsed_view(parsed) == parse(line@),
{
    let with_prefix = line.len() > 0 && line[0] == COLON;
    let prefix_end = find_byte(line, SPACE, 0);
    let start = skip_space_bytes(line, if with_prefix { prefix_end } else { 0 });
    if start >= line.len() {
        return None;
    }
    let end = find_byte(line, SPACE, start);
    let (command, args) = classify(slice(line, start, end), read_params(line, end));
    let prefix = if with_prefix {
        proof {
            lemma_find(line@, SPACE, 1);
        }
        Some(read_user(slice(line, 1, prefix_end)))
    } else {
        None
    };
    Some(Line { command, args, prefix })
}

/// The two bytes that end a line.
pub open spec fn line_end() -> Seq<u8> {
    seq![CR, LF]
}

/// A received line without the line ending that it may have: without a
/// line feed at its end, and without a carriage return before that.
pub open spec fn without_line_end(line: Seq<u8>) -> Seq<u8> {
    let fed = if line.len() > 0 && line.last() == LF {
        line.drop_last()
    } else {
        line
    };
    if fed.len() > 0 && fed.last() == CR {
        fed.drop_last()
    } else {
        fed
    }
}

/// Takes the line ending from a received line.
pub fn strip_line_end(line: &mut Vec<u8>)
    ensures
        final(line)@ == without_line_end(old(line)@),
{
    if line.len() > 0 && line[line.len() - 1] == LF {
        line.pop();
    }
    if line.len() > 0 && line[line.len() - 1] == CR {
        line.pop();
    }
}

/// Whether `text` can stand in a line: it holds no line ending and no zero byte.
pub open spec fn fits_line(text: Seq<u8>) -> bool {
    forall|i: int| 0 <= i < text.len() ==> text[i] != CR && text[i] != LF && text[i] != 0
}

/// Whether `word` can stand in a line as one parameter before the last: it
/// is not empty, holds no space and does not begin with a colon.
pub open spec fn fits_word(word: Seq<u8>) -> bool {
    &&& fits_line(word)
    &&& word.len() > 0
    &&& word[0] != COLON
    &&& forall|i: int| 0 <= i < word.len() ==> word[i] != SPACE
}

/// Whether `command` can be written as one line.
pub open spec fn sendable(command: CommandView) -> bool {
    match command {
        CommandView::Quit => true,
        CommandView::Join { channel } => fits_word(channel),
        CommandView::Privmsg { dst, text } => fits_word(dst) && fits_line(text),
        CommandView::Notice { dst, text } => fits_word(dst) && fits_line(text),
    }
}

/// The line that carries `command`, with its line ending.
pub open spec fn encoded(command: CommandView) -> Seq<u8> {
    match command {
        CommandView::Quit => ascii("QUIT"@) + line_end(),
        CommandView::Join { channel } => ascii("JOIN "@) + channel + line_end(),
        CommandView::Privmsg { dst, text } => ascii("PRIVMSG "@) + dst + ascii(" :"@) + text
            + line_end(),
        CommandView::Notice { dst, text } => ascii("NOTICE "@) + dst + ascii(" :"@) + text
            + line_end(),
    }
}

/// A command that can be written is written as one line: the line ending
/// stands at its end and nowhere else, whatever the command carries.
pub proof fn lemma_one_line(command: CommandView)
    requires
        sendable(command),
    ensures
        encoded(command).len() >= 2,
        encoded(command).subrange(encoded(command).len() - 2, encoded(command).len() as int)
            == line_end(),
        fits_line(encoded(command).subrange(0, encoded(command).len() - 2)),
{
    reveal_strlit("QUIT");
    reveal_strlit("JOIN ");
    reveal_strlit("PRIVMSG ");
    reveal_strlit("NOTICE ");
    reveal_strlit(" :");
    let line = encoded(command);
    let body = line.subrange(0, line.len() - 2);
    assert(line.subrange(line.len() - 2, line.len() as int) =~= line_end());
    match command {
        CommandView::Quit => {
            assert(body =~= ascii("QUIT"@));
        },
        CommandView::Join { channel } => {
            assert(body =~= ascii("JOIN "@) + channel);
        },
        CommandView::Privmsg { dst, text } => {
            assert(body =~= ascii("PRIVMSG "@) + dst + ascii(" :"@) + text);
        },
        CommandView::Notice { dst, text } => {
            assert(body =~= ascii("NOTICE "@) + dst + ascii(" :"@) + text);
        },
    }
}

/// Where no `byte` stands from `from` up to `to`, and one stands at `to` or
/// `to` is the end, `find` gives `to`.
pub proof fn lemma_find_at(s: Seq<u8>, byte: u8, from: int, to: int)
    requires
        0 <= from <= to <= s.len(),
        forall|k: int| from <= k < to ==> s[k] != byte,
        to < s.len() ==> s[to] == byte,
    ensures
        find(s, byte, from) == to,
    decreases to - from,
{
    if from < to {
        lemma_find_at(s, byte, from + 1, to);
    }
}

/// Whether a command, once written, is read as a message of its own kind:
/// its text does not begin with the mark of a CTCP message.
pub open spec fn plain(command: CommandView) -> bool {
    match command {
        CommandView::Privmsg { dst, text } => text.len() == 0 || text[0] != CTCP_MARK,
        CommandView::Notice { dst, text } => text.len() == 0 || text[0] != CTCP_MARK,
        _ => true,
    }
}

/// What is written is read back: the line of a command that can be written
/// and carries no CTCP message, taken without its line ending, is read as
/// the line by which an operator asks for that very command.
pub proof fn lemma_written_is_read_back(command: CommandView)
    requires
        sendable(command),
        plain(command),
    ensures
        parse(without_line_end(encoded(command))) matches Some(line) && typed_command(line) == Some(
            command,
        ),
{
    match command {
        CommandView::Quit => {
            lemma_quit_is_read_back();
        },
        CommandView::Join { channel } => {
            lemma_join_is_read_back(channel);
        },
        CommandView::Privmsg { dst, text } => {
            reveal_strlit("PRIVMSG");
            reveal_strlit("PRIVMSG ");
            reveal_strlit("NOTICE");
            reveal_strlit(" :");
            let word = ascii("PRIVMSG"@);
            let body = word + seq![SPACE] + dst + seq![SPACE, COLON] + text;
            assert(ascii("PRIVMSG "@) =~= word + seq![SPACE]);
            assert(ascii(" :"@) =~= seq![SPACE, COLON]);
            assert(encoded(command) =~= body + line_end());
            assert(word != ascii("NOTICE"@)) by {
                assert(word.len() != ascii("NOTICE"@).len());
            }
            lemma_is_no_short_word(word);
            lemma_message_is_read(word, dst, text);
        },
        CommandView::Notice { dst, text } => {
            reveal_strlit("NOTICE");
            reveal_strlit("NOTICE ");
            reveal_strlit("PRIVMSG");
            reveal_strlit(" :");
            let word = ascii("NOTICE"@);
            let body = word + seq![SPACE] + dst + seq![SPACE, COLON] + text;
            assert(ascii("NOTICE "@) =~= word + seq![SPACE]);
            assert(ascii(" :"@) =~= seq![SPACE, COLON]);
            assert(encoded(command) =~= body + line_end());
            assert(word != ascii("PRIVMSG"@)) by {
                assert(word.len() != ascii("PRIVMSG"@).len());
            }
            lemma_is_no_short_word(word);
            lemma_message_is_read(word, dst, text);
        },
    }
}

/// A word of more than four bytes is neither `QUIT` nor `JOIN`.
proof fn lemma_is_no_short_word(word: Seq<u8>)
    requires
        word.len() > 4,
    ensures
        word != ascii("QUIT"@),
        word != ascii("JOIN"@),
{
    reveal_strlit("QUIT");
    reveal_strlit("JOIN");
    assert(ascii("QUIT"@).len() == 4);
    assert(ascii("JOIN"@).len() == 4);
}

/// A line that does not end in a line feed or a carriage return is what is
/// left of it and a line ending.
proof fn lemma_line_end_goes(body: Seq<u8>)
    requires
        body.len() > 0 ==> body.last() != CR && body.last() != LF,
    ensures
        without_line_end(body + line_end()) == body,
{
    let written = body + line_end();
    assert(written.last() == LF);
    assert(written.drop_last() =~= body.push(CR));
    assert(written.drop_last().drop_last() =~= body);
}

/// The line of a quit is read back as a quit.
proof fn lemma_quit_is_read_back()
    ensures
        parse(without_line_end(encoded(CommandView::Quit))) matches Some(line) && typed_command(line)
            == Some(CommandView::Quit),
{
    reveal_strlit("QUIT");
    let word = ascii("QUIT"@);
    lemma_line_end_goes(word);
    let line = without_line_end(encoded(CommandView::Quit));
    assert(line == word);
    lemma_find_at(line, SPACE, 0, 4);
    assert(skip_spaces(line, 0) == 0);
    assert(line.subrange(0, 4) =~= word);
    assert(params(line, 4) =~= Seq::<Seq<u8>>::empty());
    assert(numeric_code(word) is None);
    assert(read_command(word, Seq::<Seq<u8>>::empty()).0 == CommandKindView::Named(word));
}

/// The line of a join is read back as a join of the same channel.
proof fn lemma_join_is_read_back(channel: Seq<u8>)
    requires
        fits_word(channel),
    ensures
        parse(without_line_end(encoded(CommandView::Join { channel }))) matches Some(line)
            && typed_command(line) == Some(CommandView::Join { channel }),
{
    reveal_strlit("QUIT");
    reveal_strlit("JOIN");
    reveal_strlit("JOIN ");
    reveal_strlit("PRIVMSG");
    reveal_strlit("NOTICE");
    let word = ascii("JOIN"@);
    assert(word != ascii("QUIT"@)) by {
        assert(word[0] != ascii("QUIT"@)[0]);
    }
    let body = word + seq![SPACE] + channel;
    assert(ascii("JOIN "@) =~= word + seq![SPACE]);
    assert(encoded(CommandView::Join { channel }) =~= body + line_end());
    assert(body.last() == channel.last());
    lemma_line_end_goes(body);
    let line = without_line_end(encoded(CommandView::Join { channel }));
    assert(line == body);
    lemma_find_at(line, SPACE, 0, 4);
    assert(skip_spaces(line, 0) == 0);
    assert(line.subrange(0, 4) =~= word);
    assert(line.subrange(5, line.len() as int) =~= channel);
    lemma_word_then_end(line, 4, channel);
    assert(numeric_code(word) is None);
    assert(word != ascii("PRIVMSG"@) && word != ascii("NOTICE"@)) by {
        assert(word.len() != ascii("PRIVMSG"@).len());
        assert(word.len() != ascii("NOTICE"@).len());
    }
    assert(read_command(word, seq![channel]) == (CommandKindView::Named(word), seq![channel]));
}

/// A line made of a command word of capital letters, a destination and a
/// text that begins with no CTCP mark is read as that word with the
/// destination and the text for its parameters.
proof fn lemma_message_is_read(word: Seq<u8>, dst: Seq<u8>, text: Seq<u8>)
    requires
        word == ascii("PRIVMSG"@) || word == ascii("NOTICE"@),
        fits_word(dst),
        fits_line(text),
        text.len() == 0 || text[0] != CTCP_MARK,
    ensures
        parse(without_line_end(word + seq![SPACE] + dst + seq![SPACE, COLON] + text + line_end()))
            == Some(
            LineView { command: CommandKindView::Named(word), args: seq![dst, text], prefix: None },
        ),
{
    reveal_strlit("PRIVMSG");
    reveal_strlit("NOTICE");
    let body = word + seq![SPACE] + dst + seq![SPACE, COLON] + text;
    let n = word.len() as int;
    assert(body.last() != CR && body.last() != LF) by {
        if text.len() > 0 {
            assert(body.last() == text.last());
        } else {
            assert(body.last() == COLON);
        }
    }
    lemma_line_end_goes(body);
    let line = without_line_end(body + line_end());
    assert(line == body);
    assert(forall|k: int| 0 <= k < n ==> line[k] == word[k]);
    assert(line[n] == SPACE);
    lemma_find_at(line, SPACE, 0, n);
    assert(skip_spaces(line, 0) == 0);
    assert(line.subrange(0, n) =~= word);
    assert(line.subrange(n + 1, n + 1 + dst.len()) =~= dst);
    assert(line.subrange(n + 3 + dst.len(), line.len() as int) =~= text);
    lemma_word_then_text(line, n, dst, text);
    assert(numeric_code(word) is None);
    assert(ctcp_message(text) is None);
    assert(read_command(word, seq![dst, text]) == (CommandKindView::Named(word), seq![dst, text]));
}

/// The parameters of a line that holds, from `at` on, a space and one word.
proof fn lemma_word_then_end(line: Seq<u8>, at: int, word: Seq<u8>)
    requires
        0 <= at,
        fits_word(word),
        line.len() == at + 1 + word.len(),
        line[at] == SPACE,
        line.subrange(at + 1, line.len() as int) == word,
    ensures
        params(line, at) == seq![word],
{
    let start = at + 1;
    let end = line.len() as int;
    assert(forall|k: int| start <= k < end ==> line[k] == line.subrange(start, end)[k - start]);
    assert(line[start] == word[0]);
    lemma_find_at(line, SPACE, start + 1, end);
    assert(params(line, end) =~= Seq::<Seq<u8>>::empty());
    assert(params(line, start) =~= seq![word]);
}

/// The parameters of a line that holds, from `at` on, a space, one word, a
/// space, a colon and a text.
proof fn lemma_word_then_text(line: Seq<u8>, at: int, word: Seq<u8>, text: Seq<u8>)
    requires
        0 <= at,
        fits_word(word),
        line.len() == at + 1 + word.len() + 2 + text.len(),
        line[at] == SPACE,
        line.subrange(at + 1, at + 1 + word.len()) == word,
        line[at + 1 + word.len()] == SPACE,
        line[at + 2 + word.len()] == COLON,
        line.subrange(at + 3 + word.len(), line.len() as int) == text,
    ensures
        params(line, at) == seq![word, text],
{
    let start = at + 1;
    let end = start + word.len();
    assert(forall|k: int| start <= k < end ==> line[k] == line.subrange(start, end)[k - start]);
    assert(line[start] == word[0]);
    lemma_find_at(line, SPACE, start + 1, end);
    assert(params(line, end + 1) =~= seq![text]);
    assert(params(line, end) == params(line, end + 1));
    assert(params(line, start) =~= seq![word] + params(line, end));
    assert(params(line, start) =~= seq![word, text]);
}

/// Whether `text` can stand in a line.
pub fn check_line(text: &Vec<u8>) -> (fits: bool)
    ensures
        fits == fits_line(text@),
{
    let mut i: usize = 0;
    while i < text.len()
        invariant
            i <= text.len(),
            forall|k: int| 0 <= k < i ==> text@[k] != CR && text@[k] != LF && text@[k] != 0,
        decreases text.len() - i,
    {
        if text[i] == CR || text[i] == LF || text[i] == 0 {
            return false;
        }
        i += 1;
    }
    true
}

/// Whether `word` can stand in a line as one parameter before the last.
pub fn check_word(word: &Vec<u8>) -> (fits: bool)
    ensures
        fits == fits_word(word@),
{
    if word.len() == 0 || word[0] == COLON || !check_line(word) {
        return false;
    }
    let space = find_byte(word, SPACE, 0);
    proof {
        lemma_find(word@, SPACE, 0);
    }
    space == word.len()
}

/// A line made of `head`, then `parts` one after the other, then the line ending.
fn compose(head: &str, first: &Vec<u8>, between: &str, second: &Vec<u8>) -> (line: Vec<u8>)
    requires
        is_ascii(head),
        is_ascii(between),
    ensures
        line@ == ascii(head@) + first@ + ascii(between@) + second@ + line_end(),
{
    let mut line = ascii_bytes(head);
    let mut part = first.clone();
    line.append(&mut part);
    let mut part = ascii_bytes(between);
    line.append(&mut part);
    let mut part = second.clone();
    line.append(&mut part);
    line.push(CR);
    line.push(LF);
    assert(line@ =~= ascii(head@) + first@ + ascii(between@) + second@ + line_end());
    line
}

/// Writes `command` as one line; `None` where it cannot be written as one.
pub fn encode(command: &Command) -> (line: Option<Vec<u8>>)
    ensures
        match line {
            Some(bytes) => sendable(command@) && bytes@ == encoded(command@),
            None => !sendable(command@),
        },
{
    proof {
        reveal_strlit("QUIT");
        reveal_strlit("JOIN ");
        reveal_strlit("PRIVMSG ");
        reveal_strlit("NOTICE ");
        reveal_strlit(" :");
        reveal_strlit("");
    }
    let nothing: Vec<u8> = Vec::new();
    match command {
        Command::Quit => {
            let line = compose("QUIT", &nothing, "", &nothing);
            assert(line@ =~= encoded(command@));
            Some(line)
        },
        Command::Join { channel } => {
            if !check_word(channel) {
                return None;
            }
            let line = compose("JOIN ", channel, "", &nothing);
            assert(line@ =~= encoded(command@));
            Some(line)
        },
        Command::Privmsg { dst, text } => {
            if !check_word(dst) || !check_line(text) {
                return None;
            }
            Some(compose("PRIVMSG ", dst, " :", text))
        },
        Command::Notice { dst, text } => {
            if !check_word(dst) || !check_line(text) {
                return None;
            }
            Some(compose("NOTICE ", dst, " :", text))
        },
    }
}

/// The two lines by which a client makes itself known to the server.
pub open spec fn login_lines(nick: Seq<u8>, user: Seq<u8>, name: Seq<u8>) -> Seq<u8> {
    ascii("NICK "@) + nick + line_end() + ascii("USER "@) + user + ascii(" 0 * :"@) + name
        + line_end()
}

/// Writes the lines by which the client of `config` makes itself known;
/// `None` where its names cannot be written.
pub fn login(config: &ServerConfig) -> (lines: Option<Vec<u8>>)
    ensures
        match lines {
            Some(bytes) => {
                &&& fits_word(config.nick@)
                &&& fits_word(config.user@)
                &&& fits_line(config.real@)
                &&& bytes@ == login_lines(config.nick@, config.user@, config.real@)
            },
            None => !(fits_word(config.nick@) && fits_word(config.user@) && fits_line(config.real@)),
        },
{
    proof {
        reveal_strlit("NICK ");
        reveal_strlit("USER ");
        reveal_strlit(" 0 * :");
        reveal_strlit("");
    }
    if !check_word(&config.nick) || !check_word(&config.user) || !check_line(&config.real) {
        return None;
    }
    let nothing: Vec<u8> = Vec::new();
    let mut lines = compose("NICK ", &config.nick, "", &nothing);
    let mut second = compose("USER ", &config.user, " 0 * :", &config.real);
    lines.append(&mut second);
    assert(lines@ =~= login_lines(config.nick@, config.user@, config.real@));
    Some(lines)
}

/// The answer that keeps the connection alive: to a `PING`, a `PONG` with
/// the last argument of the `PING`; to anything else, none.
pub open spec fn ping_answer(line: LineView) -> Option<Seq<u8>> {
    if line.command == CommandKindView::Named(ascii("PING"@)) && line.args.len() > 0 && fits_line(
        line.args.last(),
    ) {
        Some(ascii("PONG :"@) + line.args.last() + line_end())
    } else {
        None
    }
}

/// The answer that keeps the connection alive, if `line` asks for one.
pub fn answer_ping(line: &Line) -> (answer: Option<Vec<u8>>)
    ensures
        match answer {
            Some(bytes) => ping_answer(line@) == Some(bytes@),
            None => ping_answer(line@) is None,
        },
{
    proof {
        reveal_strlit("PING");
        reveal_strlit("PONG :");
        reveal_strlit("");
    }
    match &line.command {
        CommandKind::Named(word) => {
            if !same_bytes(word, &ascii_bytes("PING")) || line.args.len() == 0 {
                return None;
            }
            let token = &line.args[line.args.len() - 1];
            assert(line@.args.last() == token@);
            if !check_line(token) {
                return None;
            }
            let nothing: Vec<u8> = Vec::new();
            let answer = compose("PONG :", token, "", &nothing);
            assert(answer@ =~= ascii("PONG :"@) + token@ + line_end());
            Some(answer)
        },
        _ => None,
    }
}

/// The command that an operator asks for with a line typed at the console.
/// The console takes the words of the protocol: `QUIT`, `JOIN` with a
/// channel, `PRIVMSG` and `NOTICE` with a destination and a text.
pub open spec fn typed_command(line: LineView) -> Option<CommandView> {
    match line.command {
        CommandKindView::Named(word) => {
            if word == ascii("QUIT"@) {
                Some(CommandView::Quit)
            } else if word == ascii("JOIN"@) && line.args.len() >= 1 {
                Some(CommandView::Join { channel: line.args[0] })
            } else if word == ascii("PRIVMSG"@) && line.args.len() >= 2 {
                Some(CommandView::Privmsg { dst: line.args[0], text: line.args[1] })
            } else if word == ascii("NOTICE"@) && line.args.len() >= 2 {
                Some(CommandView::Notice { dst: line.args[0], text: line.args[1] })
            } else {
                None
            }
        },
        _ => None,
    }
}

/// The command that an operator asks for with `line`, if it is one.
pub fn command_of(line: &Line) -> (command: Option<Command>)
    ensures
        match command {
            Some(asked) => typed_command(line@) == Some(asked@),
            None => typed_command(line@) is None,
        },
{
    proof {
        reveal_strlit("QUIT");
        reveal_strlit("JOIN");
        reveal_strlit("PRIVMSG");
        reveal_strlit("NOTICE");
    }
    match &line.command {
        CommandKind::Named(word) => {
            if same_bytes(word, &ascii_bytes("QUIT")) {
                Some(Command::Quit)
            } else if same_bytes(word, &ascii_bytes("JOIN")) && line.args.len() >= 1 {
                Some(Command::Join { channel: line.args[0].clone() })
            } else if same_bytes(word, &ascii_bytes("PRIVMSG")) && line.args.len() >= 2 {
                Some(Command::Privmsg { dst: line.args[0].clone(), text: line.args[1].clone() })
            } else if same_bytes(word, &ascii_bytes("NOTICE")) && line.args.len() >= 2 {
                Some(Command::Notice { dst: line.args[0].clone(), text: line.args[1].clone() })
            } else {
                None
            }
        },
        _ => None,
    }
}

} // verus!
