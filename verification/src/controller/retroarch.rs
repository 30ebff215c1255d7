//! RetroArch joypad autoconfig generation. When RetroArch sees a gamepad
//! whose name matches a `.cfg` file in its `autoconfig/<driver>/`
//! directory it loads that file's bindings, so writing one pre-configures
//! the user's controller.

use vstd::prelude::*;

use crate::controller::types::ControllerKind;
use crate::text::{chars_of, extend_str, is_whitespace, lemma_trim_laws, string_of, trim, trim_exec};

verus! {

/// The binding lines, without their line ends: RetroArch's logical B/A on
/// the Gamepad API's south/east buttons, the shoulder buttons and
/// triggers, select/start, the stick clicks, the d-pad, and both sticks'
/// axes. The physical indexes are the same for every controller family.
pub open spec fn binding_lines() -> Seq<Seq<char>> {
    seq![
        "input_b_btn = \"0\""@,
        "input_a_btn = \"1\""@,
        "input_y_btn = \"3\""@,
        "input_x_btn = \"2\""@,
        "input_l_btn = \"4\""@,
        "input_r_btn = \"5\""@,
        "input_l2_btn = \"6\""@,
        "input_r2_btn = \"7\""@,
        "input_select_btn = \"8\""@,
        "input_start_btn = \"9\""@,
        "input_l3_btn = \"10\""@,
        "input_r3_btn = \"11\""@,
        "input_up_btn = \"12\""@,
        "input_down_btn = \"13\""@,
        "input_left_btn = \"14\""@,
        "input_right_btn = \"15\""@,
        "input_l_x_minus_axis = \"-0\""@,
        "input_l_x_plus_axis = \"+0\""@,
        "input_l_y_minus_axis = \"-1\""@,
        "input_l_y_plus_axis = \"+1\""@,
        "input_r_x_minus_axis = \"-2\""@,
        "input_r_x_plus_axis = \"+2\""@,
        "input_r_y_minus_axis = \"-3\""@,
        "input_r_y_plus_axis = \"+3\""@
    ]
}

fn binding_line_table() -> (r: Vec<&'static str>)
    ensures
        r@.map_values(|s: &str| s@) == binding_lines(),
{
    let r = vec![
        "input_b_btn = \"0\"",
        "input_a_btn = \"1\"",
        "input_y_btn = \"3\"",
        "input_x_btn = \"2\"",
        "input_l_btn = \"4\"",
        "input_r_btn = \"5\"",
        "input_l2_btn = \"6\"",
        "input_r2_btn = \"7\"",
        "input_select_btn = \"8\"",
        "input_start_btn = \"9\"",
        "input_l3_btn = \"10\"",
        "input_r3_btn = \"11\"",
        "input_up_btn = \"12\"",
        "input_down_btn = \"13\"",
        "input_left_btn = \"14\"",
        "input_right_btn = \"15\"",
        "input_l_x_minus_axis = \"-0\"",
        "input_l_x_plus_axis = \"+0\"",
        "input_l_y_minus_axis = \"-1\"",
        "input_l_y_plus_axis = \"+1\"",
        "input_r_x_minus_axis = \"-2\"",
        "input_r_x_plus_axis = \"+2\"",
        "input_r_y_minus_axis = \"-3\"",
        "input_r_y_plus_axis = \"+3\""
    ];
    assert(r@.map_values(|s: &str| s@) =~= binding_lines());
    r
}

/// Lines joined into a text, each followed by a line end.
pub open spec fn lines_text(ls: Seq<Seq<char>>) -> Seq<char>
    decreases ls.len(),
{
    if ls.len() == 0 {
        Seq::empty()
    } else {
        lines_text(ls.drop_last()) + ls.last() + seq!['\n']
    }
}

proof fn lemma_lines_text_append(a: Seq<Seq<char>>, b: Seq<Seq<char>>)
    ensures
        lines_text(a + b) == lines_text(a) + lines_text(b),
    decreases b.len(),
{
    if b.len() == 0 {
        assert(a + b =~= a);
    } else {
        lemma_lines_text_append(a, b.drop_last());
        assert((a + b).drop_last() =~= a + b.drop_last());
        assert((a + b).last() == b.last());
    }
}

/// The first line: the device name RetroArch matches pads against.
pub open spec fn device_line(controller_name: Seq<char>) -> Seq<char> {
    "input_device = \""@ + controller_name + "\""@
}

/// The second line: the input driver for the controller family.
pub open spec fn driver_line(kind: ControllerKind) -> Seq<char> {
    "input_driver = \""@ + kind.spec_driver() + "\""@
}

/// The lines of the autoconfig file for a controller.
pub open spec fn config_lines(kind: ControllerKind, controller_name: Seq<char>) -> Seq<Seq<char>> {
    seq![device_line(controller_name), driver_line(kind)] + binding_lines()
}

/// The autoconfig file body for a controller.
pub open spec fn config_text(kind: ControllerKind, controller_name: Seq<char>) -> Seq<char> {
    lines_text(config_lines(kind, controller_name))
}

/// The text holds no line end.
pub open spec fn single_line(l: Seq<char>) -> bool {
    forall|j: int| 0 <= j < l.len() ==> l[j] != '\n'
}

/// How many line ends a text holds.
pub open spec fn line_ends(s: Seq<char>) -> nat
    decreases s.len(),
{
    if s.len() == 0 {
        0
    } else {
        line_ends(s.drop_last()) + if s.last() == '\n' {
            1nat
        } else {
            0nat
        }
    }
}

proof fn lemma_line_ends_append(a: Seq<char>, b: Seq<char>)
    ensures
        line_ends(a + b) == line_ends(a) + line_ends(b),
    decreases b.len(),
{
    if b.len() == 0 {
        assert(a + b =~= a);
    } else {
        lemma_line_ends_append(a, b.drop_last());
        assert((a + b).drop_last() =~= a + b.drop_last());
    }
}

proof fn lemma_single_line_ends(l: Seq<char>)
    requires
        single_line(l),
    ensures
        line_ends(l) == 0,
    decreases l.len(),
{
    if l.len() > 0 {
        assert(l.last() == l[l.len() - 1]);
        lemma_single_line_ends(l.drop_last());
    }
}

proof fn lemma_lines_text_ends(ls: Seq<Seq<char>>)
    requires
        forall|i: int| 0 <= i < ls.len() ==> single_line(#[trigger] ls[i]),
    ensures
        line_ends(lines_text(ls)) == ls.len(),
    decreases ls.len(),
{
    if ls.len() > 0 {
        assert forall|i: int| 0 <= i < ls.drop_last().len() implies single_line(
            #[trigger] ls.drop_last()[i],
        ) by {
            assert(ls.drop_last()[i] == ls[i]);
        }
        lemma_lines_text_ends(ls.drop_last());
        assert(single_line(ls[ls.len() - 1]));
        lemma_single_line_ends(ls.last());
        lemma_line_ends_append(lines_text(ls.drop_last()), ls.last());
        lemma_line_ends_append(lines_text(ls.drop_last()) + ls.last(), seq!['\n']);
        let nl = seq!['\n'];
        assert(nl.drop_last() =~= Seq::<char>::empty());
        assert(line_ends(nl.drop_last()) == 0);
        assert(line_ends(nl) == 1);
        assert(lines_text(ls) == lines_text(ls.drop_last()) + ls.last() + nl);
    }
}

proof fn lemma_binding_lines_single()
    ensures
        forall|i: int| 0 <= i < binding_lines().len() ==> single_line(#[trigger] binding_lines()[i]),
{
    reveal_strlit("input_b_btn = \"0\"");
    reveal_strlit("input_a_btn = \"1\"");
    reveal_strlit("input_y_btn = \"3\"");
    reveal_strlit("input_x_btn = \"2\"");
    reveal_strlit("input_l_btn = \"4\"");
    reveal_strlit("input_r_btn = \"5\"");
    reveal_strlit("input_l2_btn = \"6\"");
    reveal_strlit("input_r2_btn = \"7\"");
    reveal_strlit("input_select_btn = \"8\"");
    reveal_strlit("input_start_btn = \"9\"");
    reveal_strlit("input_l3_btn = \"10\"");
    reveal_strlit("input_r3_btn = \"11\"");
    reveal_strlit("input_up_btn = \"12\"");
    reveal_strlit("input_down_btn = \"13\"");
    reveal_strlit("input_left_btn = \"14\"");
    reveal_strlit("input_right_btn = \"15\"");
    reveal_strlit("input_l_x_minus_axis = \"-0\"");
    reveal_strlit("input_l_x_plus_axis = \"+0\"");
    reveal_strlit("input_l_y_minus_axis = \"-1\"");
    reveal_strlit("input_l_y_plus_axis = \"+1\"");
    reveal_strlit("input_r_x_minus_axis = \"-2\"");
    reveal_strlit("input_r_x_plus_axis = \"+2\"");
    reveal_strlit("input_r_y_minus_axis = \"-3\"");
    reveal_strlit("input_r_y_plus_axis = \"+3\"");
}

/// The autoconfig file has 26 lines, each ending in a line end: the
/// device line, the driver line, then 24 binding lines that are the same
/// for every controller family (when the controller's name holds no line
/// end).
pub proof fn lemma_config_has_26_lines(kind: ControllerKind, other: ControllerKind, controller_name: Seq<char>)
    requires
        single_line(controller_name),
    ensures
        config_lines(kind, controller_name).len() == 26,
        config_lines(kind, controller_name)[0] == device_line(controller_name),
        config_lines(kind, controller_name)[1] == driver_line(kind),
        config_lines(kind, controller_name).subrange(2, 26) == config_lines(other, controller_name).subrange(2, 26),
        line_ends(config_text(kind, controller_name)) == 26,
        config_text(kind, controller_name).last() == '\n',
{
    reveal_strlit("input_device = \"");
    reveal_strlit("input_driver = \"");
    reveal_strlit("\"");
    reveal_strlit("xinput");
    reveal_strlit("dinput");
    let ls = config_lines(kind, controller_name);
    lemma_binding_lines_single();
    assert(single_line(device_line(controller_name))) by {
        let d = device_line(controller_name);
        assert forall|j: int| 0 <= j < d.len() implies d[j] != '\n' by {
            if j >= 16 && j < 16 + controller_name.len() {
                assert(d[j] == controller_name[j - 16]);
            }
        }
    }
    assert(single_line(driver_line(kind)));
    assert forall|i: int| 0 <= i < ls.len() implies single_line(#[trigger] ls[i]) by {
        if i >= 2 {
            assert(ls[i] == binding_lines()[i - 2]);
        }
    }
    lemma_lines_text_ends(ls);
    assert(config_lines(kind, controller_name).subrange(2, 26) =~= binding_lines());
    assert(config_lines(other, controller_name).subrange(2, 26) =~= binding_lines());
}

/// Build the `.cfg` body for a controller kind and name. The name becomes
/// the `input_device` value RetroArch matches connected pads against.
pub fn build_config(kind: ControllerKind, controller_name: &str) -> (r: String)
    ensures
        r@ == config_text(kind, controller_name@),
{
    let driver = kind.retroarch_driver();
    let mut v: Vec<char> = Vec::new();
    extend_str(&mut v, "input_device = \"");
    extend_str(&mut v, controller_name);
    extend_str(&mut v, "\"");
    v.push('\n');
    extend_str(&mut v, "input_driver = \"");
    extend_str(&mut v, driver);
    extend_str(&mut v, "\"");
    v.push('\n');
    let ghost head = seq![device_line(controller_name@), driver_line(kind)];
    proof {
        reveal_with_fuel(lines_text, 3);
        assert(head.drop_last() =~= seq![device_line(controller_name@)]);
        assert(head.drop_last().drop_last() =~= Seq::<Seq<char>>::empty());
        assert(v@ =~= lines_text(head));
    }
    let table = binding_line_table();
    let mut i: usize = 0;
    while i < table.len()
        invariant
            i <= table@.len(),
            table@.map_values(|s: &str| s@) == binding_lines(),
            v@ == lines_text(head) + lines_text(binding_lines().take(i as int)),
        decreases table.len() - i,
    {
        let ghost before = v@;
        extend_str(&mut v, table[i]);
        v.push('\n');
        proof {
            let b = binding_lines();
            assert(b.take(i + 1).drop_last() =~= b.take(i as int));
            assert(b.take(i + 1).last() == table@[i as int]@);
            assert(v@ =~= lines_text(head) + lines_text(b.take(i + 1)));
        }
        i += 1;
    }
    proof {
        assert(binding_lines().take(24) =~= binding_lines());
        lemma_lines_text_append(head, binding_lines());
    }
    string_of(v.as_slice())
}

/// A character Windows does not allow in file names.
pub open spec fn reserved_in_filename(c: char) -> bool {
    c == '/' || c == '\\' || c == ':' || c == '*' || c == '?' || c == '"' || c == '<' || c == '>'
        || c == '|'
}

/// The file name for a controller: reserved characters become `_`, then
/// surrounding whitespace is trimmed.
pub open spec fn safe_name(name: Seq<char>) -> Seq<char> {
    trim(name.map_values(|c: char| if reserved_in_filename(c) { '_' } else { c }))
}

/// A safe name holds no reserved character, and making it safe again
/// changes nothing.
pub proof fn lemma_safe_name_laws(name: Seq<char>)
    ensures
        forall|i: int| 0 <= i < safe_name(name).len() ==> !reserved_in_filename(#[trigger] safe_name(name)[i]),
        safe_name(safe_name(name)) == safe_name(name),
{
    let m = name.map_values(|c: char| if reserved_in_filename(c) { '_' } else { c });
    lemma_trim_laws(m);
    let (a, b) = choose|a: int, b: int| 0 <= a <= b <= m.len() && trim(m) == m.subrange(a, b);
    let y = safe_name(name);
    assert forall|i: int| 0 <= i < y.len() implies !reserved_in_filename(#[trigger] y[i]) by {
        assert(y[i] == m[a + i]);
    }
    let m2 = y.map_values(|c: char| if reserved_in_filename(c) { '_' } else { c });
    assert(m2 =~= y);
}

/// Sanitise a controller name into a file name Windows accepts.
pub fn safe_filename(controller_name: &str) -> (r: String)
    ensures
        r@ == safe_name(controller_name@),
        forall|i: int| 0 <= i < r@.len() ==> !reserved_in_filename(#[trigger] r@[i]),
{
    proof {
        lemma_safe_name_laws(controller_name@);
    }
    let s = chars_of(controller_name);
    let mut m: Vec<char> = Vec::new();
    let mut i: usize = 0;
    while i < s.len()
        invariant
            i <= s@.len(),
            s@ == controller_name@,
            m@ == s@.take(i as int).map_values(
                |c: char| if reserved_in_filename(c) { '_' } else { c },
            ),
        decreases s.len() - i,
    {
        let c = s[i];
        let d = if c == '/' || c == '\\' || c == ':' || c == '*' || c == '?' || c == '"' || c
            == '<' || c == '>' || c == '|' {
            '_'
        } else {
            c
        };
        m.push(d);
        assert(s@.take(i + 1).map_values(|c: char| if reserved_in_filename(c) { '_' } else { c })
            =~= s@.take(i as int).map_values(
            |c: char| if reserved_in_filename(c) { '_' } else { c },
        ).push(d));
        i += 1;
    }
    assert(s@.take(s@.len() as int) =~= s@);
    let t = trim_exec(m.as_slice());
    string_of(t.as_slice())
}

/// The autoconfig file name for a controller: its safe name plus `.cfg`.
pub fn autoconfig_file_name(controller_name: &str) -> (r: String)
    ensures
        r@ == safe_name(controller_name@) + ".cfg"@,
{
    let s = safe_filename(controller_name);
    let mut v = chars_of(s.as_str());
    extend_str(&mut v, ".cfg");
    string_of(v.as_slice())
}

} // verus!
