//! The instruction emitter: assembles the textual motion program for a set
//! of cut segments, snippet blocks supplied by the caller inlined verbatim.
//! The full text is pinned character by character, including the decimal
//! rendering of every coordinate.

use vstd::prelude::*;
use vstd::string::StringExecFns;

use crate::cutting_lines::Line;

verus! {

pub open spec fn spec_digit_char(d: nat) -> char {
    if d == 0 { '0' }
    else if d == 1 { '1' }
    else if d == 2 { '2' }
    else if d == 3 { '3' }
    else if d == 4 { '4' }
    else if d == 5 { '5' }
    else if d == 6 { '6' }
    else if d == 7 { '7' }
    else if d == 8 { '8' }
    else { '9' }
}

/// The decimal digits of `n`, most significant first.
pub open spec fn spec_dec_digits(n: nat) -> Seq<char>
    decreases n,
{
    if n < 10 {
        seq![spec_digit_char(n)]
    } else {
        spec_dec_digits(n / 10).push(spec_digit_char(n % 10))
    }
}

/// The decimal rendering of `n`, with a leading minus sign when negative.
pub open spec fn spec_int_str(n: int) -> Seq<char> {
    if n < 0 {
        seq!['-'] + spec_dec_digits((-n) as nat)
    } else {
        spec_dec_digits(n as nat)
    }
}

fn append_digit(s: &mut String, d: u64)
    requires
        d < 10,
    ensures
        final(s)@ == old(s)@ + seq![spec_digit_char(d as nat)],
{
    proof {
        reveal_strlit("0");
        reveal_strlit("1");
        reveal_strlit("2");
        reveal_strlit("3");
        reveal_strlit("4");
        reveal_strlit("5");
        reveal_strlit("6");
        reveal_strlit("7");
        reveal_strlit("8");
        reveal_strlit("9");
    }
    if d == 0 {
        s.append("0");
    } else if d == 1 {
        s.append("1");
    } else if d == 2 {
        s.append("2");
    } else if d == 3 {
        s.append("3");
    } else if d == 4 {
        s.append("4");
    } else if d == 5 {
        s.append("5");
    } else if d == 6 {
        s.append("6");
    } else if d == 7 {
        s.append("7");
    } else if d == 8 {
        s.append("8");
    } else {
        s.append("9");
    }
    proof {
        assert(final(s)@ =~= old(s)@ + seq![spec_digit_char(d as nat)]);
    }
}

fn push_dec(s: &mut String, m: u64)
    ensures
        final(s)@ == old(s)@ + spec_dec_digits(m as nat),
    decreases m,
{
    if m < 10 {
        append_digit(s, m);
    } else {
        push_dec(s, m / 10);
        append_digit(s, m % 10);
        proof {
            assert(final(s)@ =~= old(s)@ + spec_dec_digits(m as nat));
        }
    }
}

fn push_int(s: &mut String, n: i32)
    ensures
        final(s)@ == old(s)@ + spec_int_str(n as int),
{
    if n < 0 {
        proof {
            reveal_strlit("-");
        }
        s.append("-");
        let magnitude: i64 = -(n as i64);
        push_dec(s, magnitude as u64);
        proof {
            assert(final(s)@ =~= old(s)@ + spec_int_str(n as int));
        }
    } else {
        push_dec(s, n as u64);
    }
}

/// A cutting move at cutting speed.
pub open spec fn spec_move_slow(x: int, y: int) -> Seq<char> {
    "G1 X"@ + spec_int_str(x) + " Y"@ + spec_int_str(y)
}

/// A positioning move at travel speed.
pub open spec fn spec_move_fast(x: int, y: int) -> Seq<char> {
    "G0 X"@ + spec_int_str(x) + " Y"@ + spec_int_str(y)
}

pub fn get_move_slow_speed(x: i32, y: i32) -> (r: String)
    ensures
        r@ == spec_move_slow(x as int, y as int),
{
    let mut s = String::from_str("G1 X");
    push_int(&mut s, x);
    s.append(" Y");
    push_int(&mut s, y);
    proof {
        assert(s@ =~= spec_move_slow(x as int, y as int));
    }
    s
}

pub fn get_move_fast_speed(x: i32, y: i32) -> (r: String)
    ensures
        r@ == spec_move_fast(x as int, y as int),
{
    let mut s = String::from_str("G0 X");
    push_int(&mut s, x);
    s.append(" Y");
    push_int(&mut s, y);
    proof {
        assert(s@ =~= spec_move_fast(x as int, y as int));
    }
    s
}

/// The header comment naming the job and the moment of emission.
pub open spec fn spec_title_comment(name: Seq<char>, timestamp: Seq<char>) -> Seq<char> {
    "( "@ + name + " - data: "@ + timestamp + " )\n\n"@
}

pub fn get_title_comment(name: &str, timestamp: &str) -> (r: String)
    ensures
        r@ == spec_title_comment(name@, timestamp@),
{
    let mut instructions = String::from_str("( ");
    instructions.append(name);
    instructions.append(" - data: ");
    instructions.append(timestamp);
    instructions.append(" )\n\n");
    proof {
        assert(instructions@ =~= spec_title_comment(name@, timestamp@));
    }
    instructions
}

/// The block that pulls fresh textile onto the table: pick snippet, one
/// linear move along the length axis, drop snippet.
pub open spec fn spec_pull_textile(
    length_to_pull: nat, pick: Seq<char>, drop_snippet: Seq<char>,
) -> Seq<char> {
    "( Inicio posicionar tecido )\n"@ + pick + "\nG1 Y"@ + spec_dec_digits(length_to_pull)
        + "\n"@ + drop_snippet + "\n( Fim posicionar tecido )\n\n"@
}

pub fn get_pull_textile_instruction(
    length_to_pull: u32, pick_textile_instruction: &str, drop_textile_instruction: &str,
) -> (r: String)
    ensures
        r@ == spec_pull_textile(length_to_pull as nat, pick_textile_instruction@,
            drop_textile_instruction@),
{
    let mut instructions = String::from_str("( Inicio posicionar tecido )\n");
    instructions.append(pick_textile_instruction);
    instructions.append("\nG1 Y");
    push_dec(&mut instructions, length_to_pull as u64);
    instructions.append("\n");
    instructions.append(drop_textile_instruction);
    instructions.append("\n( Fim posicionar tecido )\n\n");
    proof {
        assert(instructions@ =~= spec_pull_textile(length_to_pull as nat,
            pick_textile_instruction@, drop_textile_instruction@));
    }
    instructions
}

/// The opening block of the program, wrapping the start snippet.
pub open spec fn spec_start_program(snippet: Seq<char>) -> Seq<char> {
    "( Inicio configuracoes iniciais )\n"@ + snippet + "\n( Fim configuracoes iniciais )\n\n"@
}

pub fn get_start_program(start_program_instruction: &str) -> (r: String)
    ensures
        r@ == spec_start_program(start_program_instruction@),
{
    let mut instructions = String::from_str("( Inicio configuracoes iniciais )\n");
    instructions.append(start_program_instruction);
    instructions.append("\n( Fim configuracoes iniciais )\n\n");
    proof {
        assert(instructions@ =~= spec_start_program(start_program_instruction@));
    }
    instructions
}

/// The closing block of the program, wrapping the end snippet.
pub open spec fn spec_end_program(snippet: Seq<char>) -> Seq<char> {
    "( Inicio codigo para finalizar )\n"@ + snippet + "\n( Fim codigo para finalizar )\n\n"@
}

pub fn get_end_program(end_program_instruction: &str) -> (r: String)
    ensures
        r@ == spec_end_program(end_program_instruction@),
{
    let mut instructions = String::from_str("( Inicio codigo para finalizar )\n");
    instructions.append(end_program_instruction);
    instructions.append("\n( Fim codigo para finalizar )\n\n");
    proof {
        assert(instructions@ =~= spec_end_program(end_program_instruction@));
    }
    instructions
}

/// One vertical cut: position fast at the start, cut slowly to the end,
/// the per-cut snippets around the cutting move.
pub open spec fn spec_vertical_block(line: Line, before: Seq<char>, after: Seq<char>)
    -> Seq<char> {
    "( Inicio cortar linha vertical )\n"@
        + spec_move_fast(line.start.pos_x as int, line.start.pos_y as int) + "\n"@
        + before + "\n"@
        + spec_move_slow(line.end.pos_x as int, line.end.pos_y as int) + "\n"@
        + after + "\n( Fim cortar linha vertical )\n"@
}

pub open spec fn spec_vertical_section(lines: Seq<Line>, before: Seq<char>, after: Seq<char>)
    -> Seq<char>
    decreases lines.len(),
{
    if lines.len() == 0 {
        Seq::<char>::empty()
    } else {
        spec_vertical_section(lines.drop_last(), before, after)
            + spec_vertical_block(lines.last(), before, after)
    }
}

/// The whole vertical group, wrapped in its own markers.
pub open spec fn spec_vertical_lines_text(lines: Seq<Line>, before: Seq<char>, after: Seq<char>)
    -> Seq<char> {
    "( Inicio cortar todas linhas verticais )\n"@
        + spec_vertical_section(lines, before, after)
        + "( Fim cortar todas linhas verticais )\n\n"@
}

pub fn get_vertical_lines(
    vertical_lines: &Vec<Line>, before_y_cut_instruction: &str, after_y_cut_instruction: &str,
) -> (r: String)
    ensures
        r@ == spec_vertical_lines_text(vertical_lines@, before_y_cut_instruction@,
            after_y_cut_instruction@),
{
    let ghost before = before_y_cut_instruction@;
    let ghost after = after_y_cut_instruction@;
    let mut instructions = String::from_str("( Inicio cortar todas linhas verticais )\n");

    let n = vertical_lines.len();
    for i in 0..n
        invariant
            n == vertical_lines.len(),
            before == before_y_cut_instruction@,
            after == after_y_cut_instruction@,
            instructions@ == "( Inicio cortar todas linhas verticais )\n"@
                + spec_vertical_section(vertical_lines@.subrange(0, i as int), before, after),
    {
        let line = vertical_lines[i];

        instructions.append("( Inicio cortar linha vertical )\n");
        let fast = get_move_fast_speed(line.start.pos_x, line.start.pos_y);
        instructions.append(fast.as_str());
        instructions.append("\n");
        instructions.append(before_y_cut_instruction);
        instructions.append("\n");
        let slow = get_move_slow_speed(line.end.pos_x, line.end.pos_y);
        instructions.append(slow.as_str());
        instructions.append("\n");
        instructions.append(after_y_cut_instruction);
        instructions.append("\n( Fim cortar linha vertical )\n");

        proof {
            assert(vertical_lines@.subrange(0, i + 1).drop_last()
                =~= vertical_lines@.subrange(0, i as int));
            assert(instructions@ =~= "( Inicio cortar todas linhas verticais )\n"@
                + spec_vertical_section(vertical_lines@.subrange(0, i + 1), before, after));
        }
    }
    proof {
        assert(vertical_lines@.subrange(0, n as int) =~= vertical_lines@);
    }
    instructions.append("( Fim cortar todas linhas verticais )\n\n");
    proof {
        assert(instructions@ =~= spec_vertical_lines_text(vertical_lines@, before, after));
    }
    instructions
}

/// One horizontal cut, mirroring the vertical block.
pub open spec fn spec_horizontal_block(line: Line, before: Seq<char>, after: Seq<char>)
    -> Seq<char> {
    "( Inicio cortar linha horizontal )\n"@
        + spec_move_fast(line.start.pos_x as int, line.start.pos_y as int) + "\n"@
        + before + "\n"@
        + spec_move_slow(line.end.pos_x as int, line.end.pos_y as int) + "\n"@
        + after + "\n( Fim cortar linha horizontal )\n"@
}

pub open spec fn spec_horizontal_section(lines: Seq<Line>, before: Seq<char>, after: Seq<char>)
    -> Seq<char>
    decreases lines.len(),
{
    if lines.len() == 0 {
        Seq::<char>::empty()
    } else {
        spec_horizontal_section(lines.drop_last(), before, after)
            + spec_horizontal_block(lines.last(), before, after)
    }
}

/// The whole horizontal group, wrapped in its own markers.
pub open spec fn spec_horizontal_lines_text(
    lines: Seq<Line>, before: Seq<char>, after: Seq<char>,
) -> Seq<char> {
    "( Inicio cortar todas linhas horizontais )\n"@
        + spec_horizontal_section(lines, before, after)
        + "( Fim cortar todas linhas horizontais )\n\n"@
}

pub fn get_horizontal_lines(
    horizontal_lines: &Vec<Line>, before_x_cut_instruction: &str, after_x_cut_instruction: &str,
) -> (r: String)
    ensures
        r@ == spec_horizontal_lines_text(horizontal_lines@, before_x_cut_instruction@,
            after_x_cut_instruction@),
{
    let ghost before = before_x_cut_instruction@;
    let ghost after = after_x_cut_instruction@;
    let mut instructions = String::from_str("( Inicio cortar todas linhas horizontais )\n");

    let n = horizontal_lines.len();
    for i in 0..n
        invariant
            n == horizontal_lines.len(),
            before == before_x_cut_instruction@,
            after == after_x_cut_instruction@,
            instructions@ == "( Inicio cortar todas linhas horizontais )\n"@
                + spec_horizontal_section(horizontal_lines@.subrange(0, i as int), before,
                    after),
    {
        let line = horizontal_lines[i];

        instructions.append("( Inicio cortar linha horizontal )\n");
        let fast = get_move_fast_speed(line.start.pos_x, line.start.pos_y);
        instructions.append(fast.as_str());
        instructions.append("\n");
        instructions.append(before_x_cut_instruction);
        instructions.append("\n");
        let slow = get_move_slow_speed(line.end.pos_x, line.end.pos_y);
        instructions.append(slow.as_str());
        instructions.append("\n");
        instructions.append(after_x_cut_instruction);
        instructions.append("\n( Fim cortar linha horizontal )\n");

        proof {
            assert(horizontal_lines@.subrange(0, i + 1).drop_last()
                =~= horizontal_lines@.subrange(0, i as int));
            assert(instructions@ =~= "( Inicio cortar todas linhas horizontais )\n"@
                + spec_horizontal_section(horizontal_lines@.subrange(0, i + 1), before,
                    after));
        }
    }
    proof {
        assert(horizontal_lines@.subrange(0, n as int) =~= horizontal_lines@);
    }
    instructions.append("( Fim cortar todas linhas horizontais )\n\n");
    proof {
        assert(instructions@ =~= spec_horizontal_lines_text(horizontal_lines@, before, after));
    }
    instructions
}

/// The eight opaque snippet blocks the emitter inlines verbatim.
pub struct GcodeSnippets {
    pub start_program: String,
    pub end_program: String,
    pub pick_textile: String,
    pub drop_textile: String,
    pub before_x_cut: String,
    pub after_x_cut: String,
    pub before_y_cut: String,
    pub after_y_cut: String,
}

/// The complete program text for a job: header, start block, the optional
/// textile pull, all vertical cuts before all horizontal ones, end block.
pub open spec fn spec_gcode_program(
    name: Seq<char>, timestamp: Seq<char>, snippets: GcodeSnippets,
    textile_length_to_pull: Option<u32>, vertical_lines: Seq<Line>,
    horizontal_lines: Seq<Line>,
) -> Seq<char> {
    spec_title_comment(name, timestamp)
        + spec_start_program(snippets.start_program@) + "\n\n"@
        + (match textile_length_to_pull {
            Some(len) => spec_pull_textile(len as nat, snippets.pick_textile@,
                snippets.drop_textile@) + "\n\n"@,
            None => Seq::<char>::empty(),
        })
        + spec_vertical_lines_text(vertical_lines, snippets.before_y_cut@,
            snippets.after_y_cut@) + "\n\n"@
        + spec_horizontal_lines_text(horizontal_lines, snippets.before_x_cut@,
            snippets.after_x_cut@) + "\n\n"@
        + spec_end_program(snippets.end_program@)
}

/// Assembles the program for the given timestamp text.
pub fn assemble_gcode_instructions(
    horizontal_lines: &Vec<Line>, vertical_lines: &Vec<Line>,
    textile_length_to_pull: Option<u32>, name: &str, timestamp: &str,
    snippets: &GcodeSnippets,
) -> (r: String)
    ensures
        r@ == spec_gcode_program(name@, timestamp@, *snippets, textile_length_to_pull,
            vertical_lines@, horizontal_lines@),
{
    let mut instructions = get_title_comment(name, timestamp);

    let start = get_start_program(snippets.start_program.as_str());
    instructions.append(start.as_str());
    instructions.append("\n\n");

    match textile_length_to_pull {
        Some(length_to_pull) => {
            let pull = get_pull_textile_instruction(
                length_to_pull, snippets.pick_textile.as_str(),
                snippets.drop_textile.as_str(),
            );
            instructions.append(pull.as_str());
            instructions.append("\n\n");
        },
        None => {},
    }

    let vertical = get_vertical_lines(
        vertical_lines, snippets.before_y_cut.as_str(), snippets.after_y_cut.as_str(),
    );
    instructions.append(vertical.as_str());
    instructions.append("\n\n");

    let horizontal = get_horizontal_lines(
        horizontal_lines, snippets.before_x_cut.as_str(), snippets.after_x_cut.as_str(),
    );
    instructions.append(horizontal.as_str());
    instructions.append("\n\n");

    let end = get_end_program(snippets.end_program.as_str());
    instructions.append(end.as_str());

    proof {
        assert(instructions@ =~= spec_gcode_program(name@, timestamp@, *snippets,
            textile_length_to_pull, vertical_lines@, horizontal_lines@));
    }
    instructions
}

/// Relies on chrono's `Local::now` and its formatter: the current local
/// time rendered as `year-month-day hour:minute:second offset`. Nothing is
/// promised of the clock's reading.
#[verifier::external_body]
fn now_local_formatted() -> (r: String) {
    chrono::Local::now().format("%Y-%m-%d %H:%M:%S %z").to_string()
}

/// Assembles the program, stamping it with the moment of the call. The text
/// is the assembly of some timestamp; which one depends on the clock.
pub fn generate_gcode_instructions(
    horizontal_lines: &Vec<Line>, vertical_lines: &Vec<Line>,
    textile_length_to_pull: Option<u32>, name: &str, snippets: &GcodeSnippets,
) -> (r: String)
    ensures
        exists|timestamp: Seq<char>| r@ == spec_gcode_program(name@, timestamp, *snippets,
            textile_length_to_pull, vertical_lines@, horizontal_lines@),
{
    let timestamp = now_local_formatted();
    let r = assemble_gcode_instructions(
        horizontal_lines, vertical_lines, textile_length_to_pull, name,
        timestamp.as_str(), snippets,
    );
    proof {
        assert(r@ == spec_gcode_program(name@, timestamp@, *snippets,
            textile_length_to_pull, vertical_lines@, horizontal_lines@));
    }
    r
}

} // verus!
