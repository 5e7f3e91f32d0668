//! The round-trip law: parsing a serialized snapshot recovers exactly the
//! non-sentinel scalars, and nothing else, when the lists are empty.

use vstd::prelude::*;

use crate::baseboard::BaseboardInfoView;
use crate::baseline::BaselineView;
use crate::chars::{
    find_char, is_space_char, lemma_drop_leading_skip, lemma_drop_trailing_take,
    lemma_find_char_at, lemma_trim_noop, lemma_trim_props, space_pred, trim_spec,
};
use crate::chassis::ChassisInfoView;
use crate::normalize::{normalized_value, sentinel};
use crate::parse::{
    dispatch, eq_pred, init_state, is_header, parse_from, parse_line, parse_spec, ParseState,
};
use crate::processor::ProcessorInfoView;
use crate::serialize::{
    baseboard_section, chassis_section, disk_blocks, gpu_blocks, monitor_blocks, net_blocks, nl,
    processor_section, serialized_spec, system_section,
};
use crate::snapshot::SnapshotView;
use crate::system::SystemInfoView;

verus! {

/// A value that serializes onto one line and survives trimming: nonempty,
/// trimmed, and free of line terminators.
pub open spec fn line_safe(v: Seq<char>) -> bool {
    v.len() > 0 && v == trim_spec(v) && !v.contains('\n')
}

/// What the parser records for a stored scalar: nothing for the sentinel,
/// the value itself otherwise.
pub open spec fn recovered(v: Seq<char>) -> Option<Seq<char>> {
    if v == sentinel() {
        Option::None
    } else {
        Option::Some(v)
    }
}

/// Peeling one terminated line off the front of a scan.
proof fn lemma_parse_from_step(st: ParseState, l: Seq<char>, rest: Seq<char>)
    requires
        forall|k: int| 0 <= k < l.len() ==> l[k] != '\n',
    ensures
        parse_from(st, l + nl() + rest) == parse_from(parse_line(st, l), rest),
{
    reveal_strlit("\n");
    let s = l + nl() + rest;
    assert(s[l.len() as int] == '\n');
    assert(forall|k: int| 0 <= k < l.len() ==> s[k] == l[k]);
    lemma_find_char_at(s, '\n', l.len() as int);
    assert(s.take(l.len() as int) =~= l);
    assert(s.skip(l.len() as int + 1) =~= rest);
    if rest.len() == 0 {
        assert(parse_from(parse_line(st, l), rest) == parse_line(st, l));
    }
}

/// A trimmed nonempty value has no whitespace at either end.
proof fn lemma_line_safe_ends(v: Seq<char>)
    requires
        v.len() > 0,
        v == trim_spec(v),
    ensures
        !is_space_char(v[0]),
        !is_space_char(v[v.len() - 1]),
{
    lemma_trim_props(v);
}

/// Evaluating the scan on a section header line built as
/// `"=== " + name + " ==="`.
proof fn lemma_header_line(st: ParseState, h: Seq<char>, name: Seq<char>)
    requires
        h == "=== "@ + name + " ==="@,
        name.len() > 0,
        !is_space_char(name[0]),
        !is_space_char(name[name.len() - 1]),
    ensures
        parse_line(st, h) == (ParseState { baseline: st.baseline, section: name }),
{
    reveal_strlit("=== ");
    reveal_strlit(" ===");
    reveal_strlit("===");
    let n = name.len() as int;
    assert(h.len() == n + 8);
    assert(h[0] == '=' && h[1] == '=' && h[2] == '=' && h[3] == ' ');
    assert(forall|k: int| 0 <= k < n ==> h[4 + k] == name[k]);
    assert(h[n + 4] == ' ' && h[n + 5] == '=' && h[n + 6] == '=' && h[n + 7] == '=');
    lemma_trim_noop(h);
    assert(trim_spec(h) == h);
    assert(h.take(3) =~= "==="@);
    assert(h.skip(h.len() - 3) =~= "==="@);
    assert(is_header(h));
    lemma_drop_leading_skip(h, eq_pred(), 3);
    let u = h.skip(3);
    assert(u.len() == n + 5);
    assert(u[u.len() - 1] == '=' && u[u.len() - 2] == '=' && u[u.len() - 3] == '=');
    assert(u[u.len() - 4] == ' ');
    lemma_drop_trailing_take(u, eq_pred(), u.len() - 4);
    let w = u.take(u.len() - 3);
    assert(w.len() == n + 2);
    assert(w[0] == ' ');
    assert(forall|k: int| 0 <= k < n ==> w[1 + k] == name[k]);
    assert(w[w.len() - 1] == ' ');
    lemma_drop_leading_skip(w, space_pred(), 1);
    let x = w.skip(1);
    assert(x.len() == n + 1);
    assert(forall|k: int| 0 <= k < n ==> x[k] == name[k]);
    lemma_drop_trailing_take(x, space_pred(), n - 1);
    assert(x.take(n) =~= name);
}

/// Evaluating the scan on a key-value line built as `key + ": " + v`.
proof fn lemma_kv_line(st: ParseState, key: Seq<char>, v: Seq<char>)
    requires
        key.len() > 0,
        key[0] != '=',
        !is_space_char(key[0]),
        !is_space_char(key[key.len() - 1]),
        forall|k: int| 0 <= k < key.len() ==> key[k] != ':',
        v.len() > 0,
        v == trim_spec(v),
    ensures
        parse_line(st, key + ": "@ + v) == if v == sentinel() {
            st
        } else {
            ParseState {
                baseline: dispatch(st.baseline, st.section, key, v),
                section: st.section,
            }
        },
{
    reveal_strlit(": ");
    reveal_strlit("===");
    let line = key + ": "@ + v;
    let kn = key.len() as int;
    assert(line.len() == kn + 2 + v.len());
    assert(line[0] == key[0]);
    lemma_line_safe_ends(v);
    assert(line[line.len() - 1] == v[v.len() - 1]);
    lemma_trim_noop(line);
    assert(trim_spec(line) == line);
    assert(!is_header(line)) by {
        if is_header(line) {
            assert(line.take(3)[0] == "==="@[0]);
            assert(line[0] == '=');
        }
    }
    assert(line[kn] == ':');
    assert(forall|k: int| 0 <= k < kn ==> line[k] == key[k] && line[k] != ':');
    lemma_find_char_at(line, ':', kn);
    assert(line.take(kn) =~= key);
    lemma_trim_noop(key);
    let tail = line.skip(kn + 1);
    assert(tail =~= seq![' '] + v);
    assert(tail[0] == ' ' && is_space_char(' '));
    assert(forall|k: int| 0 <= k < v.len() ==> tail[1 + k] == v[k]);
    lemma_drop_leading_skip(tail, space_pred(), 1);
    assert(tail.skip(1) =~= v);
    lemma_drop_trailing_take(v, space_pred(), v.len() - 1);
    assert(v.take(v.len() as int) =~= v);
    assert(trim_spec(tail) == v);
}

/// A blank line changes nothing.
proof fn lemma_blank_line(st: ParseState)
    ensures
        parse_line(st, Seq::empty()) == st,
{
    let e = Seq::<char>::empty();
    assert(trim_spec(e) =~= e);
    assert(!is_header(e));
    assert(find_char(e, ':') == -1);
}

/// A stored field that contains no line terminator fits on one line.
proof fn lemma_normalized_line_safe(v: Seq<char>)
    requires
        normalized_value(v),
        !v.contains('\n'),
    ensures
        line_safe(v),
{
    if v == sentinel() {
        reveal_strlit("N/A");
        lemma_trim_noop(v);
    }
}

/// The characters of a line-safe value are all ordinary.
proof fn lemma_no_newline_chars(v: Seq<char>)
    requires
        !v.contains('\n'),
    ensures
        forall|k: int| 0 <= k < v.len() ==> v[k] != '\n',
{
    assert forall|k: int| 0 <= k < v.len() implies v[k] != '\n' by {
        if v[k] == '\n' {
            assert(v.contains('\n'));
        }
    }
}

spec fn upd_sys_serial(b: BaselineView, v: Seq<char>) -> BaselineView {
    if v == sentinel() {
        b
    } else {
        BaselineView { system_serial: Option::Some(v), ..b }
    }
}

spec fn upd_sys_uuid(b: BaselineView, v: Seq<char>) -> BaselineView {
    if v == sentinel() {
        b
    } else {
        BaselineView { system_uuid: Option::Some(v), ..b }
    }
}

spec fn upd_sys_sku(b: BaselineView, v: Seq<char>) -> BaselineView {
    if v == sentinel() {
        b
    } else {
        BaselineView { system_sku: Option::Some(v), ..b }
    }
}

spec fn upd_baseboard_serial(b: BaselineView, v: Seq<char>) -> BaselineView {
    if v == sentinel() {
        b
    } else {
        BaselineView { baseboard_serial: Option::Some(v), ..b }
    }
}

spec fn upd_processor_serial(b: BaselineView, v: Seq<char>) -> BaselineView {
    if v == sentinel() {
        b
    } else {
        BaselineView { processor_serial: Option::Some(v), ..b }
    }
}

spec fn upd_chassis_serial(b: BaselineView, v: Seq<char>) -> BaselineView {
    if v == sentinel() {
        b
    } else {
        BaselineView { chassis_serial: Option::Some(v), ..b }
    }
}

#[verifier::rlimit(100)]
proof fn lemma_parse_system(st: ParseState, s: SystemInfoView, rest: Seq<char>)
    requires
        line_safe(s.serial_number),
        line_safe(s.uuid),
        line_safe(s.sku),
    ensures
        parse_from(st, system_section(s) + rest) == parse_from(
            ParseState {
                baseline: upd_sys_sku(
                    upd_sys_uuid(upd_sys_serial(st.baseline, s.serial_number), s.uuid),
                    s.sku,
                ),
                section: "SYSTEM"@,
            },
            rest,
        ),
{
    reveal_strlit("=== SYSTEM ===");
    reveal_strlit("=== ");
    reveal_strlit(" ===");
    reveal_strlit("SYSTEM");
    reveal_strlit("Serial Number: ");
    reveal_strlit("Serial Number");
    reveal_strlit("UUID: ");
    reveal_strlit("UUID");
    reveal_strlit("SKU: ");
    reveal_strlit("SKU");
    reveal_strlit(": ");
    reveal_strlit("\n");
    let l1 = "=== SYSTEM ==="@;
    let l2 = "Serial Number"@ + ": "@ + s.serial_number;
    let l3 = "UUID"@ + ": "@ + s.uuid;
    let l4 = "SKU"@ + ": "@ + s.sku;
    let e = Seq::<char>::empty();
    assert(l1 =~= "=== "@ + "SYSTEM"@ + " ==="@);
    assert(system_section(s) + rest =~= l1 + nl() + (l2 + nl() + (l3 + nl() + (l4 + nl() + (e
        + nl() + rest)))));
    lemma_no_newline_chars(s.serial_number);
    lemma_no_newline_chars(s.uuid);
    lemma_no_newline_chars(s.sku);
    assert(forall|k: int| 0 <= k < l1.len() ==> l1[k] != '\n');
    assert(forall|k: int| 0 <= k < l2.len() ==> l2[k] != '\n');
    assert(forall|k: int| 0 <= k < l3.len() ==> l3[k] != '\n');
    assert(forall|k: int| 0 <= k < l4.len() ==> l4[k] != '\n');
    lemma_header_line(st, l1, "SYSTEM"@);
    lemma_parse_from_step(st, l1, l2 + nl() + (l3 + nl() + (l4 + nl() + (e + nl() + rest))));
    let st1 = parse_line(st, l1);
    lemma_kv_line(st1, "Serial Number"@, s.serial_number);
    lemma_parse_from_step(st1, l2, l3 + nl() + (l4 + nl() + (e + nl() + rest)));
    let st2 = parse_line(st1, l2);
    assert(st2.baseline == upd_sys_serial(st.baseline, s.serial_number));
    lemma_kv_line(st2, "UUID"@, s.uuid);
    lemma_parse_from_step(st2, l3, l4 + nl() + (e + nl() + rest));
    let st3 = parse_line(st2, l3);
    assert(st3.baseline == upd_sys_uuid(st2.baseline, s.uuid));
    lemma_kv_line(st3, "SKU"@, s.sku);
    lemma_parse_from_step(st3, l4, e + nl() + rest);
    let st4 = parse_line(st3, l4);
    assert(st4.baseline == upd_sys_sku(st3.baseline, s.sku));
    lemma_blank_line(st4);
    lemma_parse_from_step(st4, e, rest);
}

#[verifier::rlimit(100)]
proof fn lemma_parse_baseboard(st: ParseState, b: BaseboardInfoView, rest: Seq<char>)
    requires
        st.section == "SYSTEM"@,
        line_safe(b.serial_number),
        line_safe(b.asset_tag),
    ensures
        parse_from(st, baseboard_section(b) + rest) == parse_from(
            ParseState {
                baseline: upd_baseboard_serial(st.baseline, b.serial_number),
                section: "BASEBOARD"@,
            },
            rest,
        ),
{
    reveal_strlit("=== BASEBOARD ===");
    reveal_strlit("=== ");
    reveal_strlit(" ===");
    reveal_strlit("BASEBOARD");
    reveal_strlit("SYSTEM");
    reveal_strlit("Serial Number: ");
    reveal_strlit("Serial Number");
    reveal_strlit("Asset Tag: ");
    reveal_strlit("Asset Tag");
    reveal_strlit(": ");
    reveal_strlit("\n");
    let l1 = "=== BASEBOARD ==="@;
    let l2 = "Serial Number"@ + ": "@ + b.serial_number;
    let l3 = "Asset Tag"@ + ": "@ + b.asset_tag;
    let e = Seq::<char>::empty();
    assert(l1 =~= "=== "@ + "BASEBOARD"@ + " ==="@);
    assert(baseboard_section(b) + rest =~= l1 + nl() + (l2 + nl() + (l3 + nl() + (e + nl()
        + rest))));
    lemma_no_newline_chars(b.serial_number);
    lemma_no_newline_chars(b.asset_tag);
    assert(forall|k: int| 0 <= k < l1.len() ==> l1[k] != '\n');
    assert(forall|k: int| 0 <= k < l2.len() ==> l2[k] != '\n');
    assert(forall|k: int| 0 <= k < l3.len() ==> l3[k] != '\n');
    lemma_header_line(st, l1, "BASEBOARD"@);
    lemma_parse_from_step(st, l1, l2 + nl() + (l3 + nl() + (e + nl() + rest)));
    let st1 = parse_line(st, l1);
    lemma_kv_line(st1, "Serial Number"@, b.serial_number);
    lemma_parse_from_step(st1, l2, l3 + nl() + (e + nl() + rest));
    let st2 = parse_line(st1, l2);
    assert(st2.baseline == upd_baseboard_serial(st.baseline, b.serial_number));
    lemma_kv_line(st2, "Asset Tag"@, b.asset_tag);
    lemma_parse_from_step(st2, l3, e + nl() + rest);
    let st3 = parse_line(st2, l3);
    assert(st3 == st2);
    lemma_blank_line(st3);
    lemma_parse_from_step(st3, e, rest);
}

#[verifier::rlimit(100)]
proof fn lemma_parse_processor(st: ParseState, p: ProcessorInfoView, rest: Seq<char>)
    requires
        st.section == "BASEBOARD"@,
        line_safe(p.serial_number),
        line_safe(p.part_number),
    ensures
        parse_from(st, processor_section(p) + rest) == parse_from(
            ParseState {
                baseline: upd_processor_serial(st.baseline, p.serial_number),
                section: "PROCESSOR"@,
            },
            rest,
        ),
{
    reveal_strlit("=== PROCESSOR ===");
    reveal_strlit("=== ");
    reveal_strlit(" ===");
    reveal_strlit("PROCESSOR");
    reveal_strlit("SYSTEM");
    reveal_strlit("BASEBOARD");
    reveal_strlit("Serial Number: ");
    reveal_strlit("Serial Number");
    reveal_strlit("Part Number: ");
    reveal_strlit("Part Number");
    reveal_strlit(": ");
    reveal_strlit("\n");
    let l1 = "=== PROCESSOR ==="@;
    let l2 = "Serial Number"@ + ": "@ + p.serial_number;
    let l3 = "Part Number"@ + ": "@ + p.part_number;
    let e = Seq::<char>::empty();
    assert(l1 =~= "=== "@ + "PROCESSOR"@ + " ==="@);
    assert(processor_section(p) + rest =~= l1 + nl() + (l2 + nl() + (l3 + nl() + (e + nl()
        + rest))));
    lemma_no_newline_chars(p.serial_number);
    lemma_no_newline_chars(p.part_number);
    assert(forall|k: int| 0 <= k < l1.len() ==> l1[k] != '\n');
    assert(forall|k: int| 0 <= k < l2.len() ==> l2[k] != '\n');
    assert(forall|k: int| 0 <= k < l3.len() ==> l3[k] != '\n');
    assert("PROCESSOR"@[0] == 'P' && "BASEBOARD"@[0] == 'B');
    assert("PROCESSOR"@ != "BASEBOARD"@);
    lemma_header_line(st, l1, "PROCESSOR"@);
    lemma_parse_from_step(st, l1, l2 + nl() + (l3 + nl() + (e + nl() + rest)));
    let st1 = parse_line(st, l1);
    lemma_kv_line(st1, "Serial Number"@, p.serial_number);
    lemma_parse_from_step(st1, l2, l3 + nl() + (e + nl() + rest));
    let st2 = parse_line(st1, l2);
    assert(st2.baseline == upd_processor_serial(st.baseline, p.serial_number));
    lemma_kv_line(st2, "Part Number"@, p.part_number);
    lemma_parse_from_step(st2, l3, e + nl() + rest);
    let st3 = parse_line(st2, l3);
    assert(st3 == st2);
    lemma_blank_line(st3);
    lemma_parse_from_step(st3, e, rest);
}

#[verifier::rlimit(100)]
proof fn lemma_parse_chassis(st: ParseState, c: ChassisInfoView, rest: Seq<char>)
    requires
        st.section == "PROCESSOR"@,
        line_safe(c.serial_number),
        line_safe(c.asset_tag),
        line_safe(c.sku),
    ensures
        parse_from(st, chassis_section(c) + rest) == parse_from(
            ParseState {
                baseline: upd_chassis_serial(st.baseline, c.serial_number),
                section: "CHASSIS"@,
            },
            rest,
        ),
{
    reveal_strlit("=== CHASSIS ===");
    reveal_strlit("=== ");
    reveal_strlit(" ===");
    reveal_strlit("CHASSIS");
    reveal_strlit("SYSTEM");
    reveal_strlit("BASEBOARD");
    reveal_strlit("PROCESSOR");
    reveal_strlit("Serial Number: ");
    reveal_strlit("Serial Number");
    reveal_strlit("Asset Tag: ");
    reveal_strlit("Asset Tag");
    reveal_strlit("SKU: ");
    reveal_strlit("SKU");
    reveal_strlit(": ");
    reveal_strlit("\n");
    let l1 = "=== CHASSIS ==="@;
    let l2 = "Serial Number"@ + ": "@ + c.serial_number;
    let l3 = "Asset Tag"@ + ": "@ + c.asset_tag;
    let l4 = "SKU"@ + ": "@ + c.sku;
    let e = Seq::<char>::empty();
    assert(l1 =~= "=== "@ + "CHASSIS"@ + " ==="@);
    assert(chassis_section(c) + rest =~= l1 + nl() + (l2 + nl() + (l3 + nl() + (l4 + nl() + (e
        + nl() + rest)))));
    lemma_no_newline_chars(c.serial_number);
    lemma_no_newline_chars(c.asset_tag);
    lemma_no_newline_chars(c.sku);
    assert(forall|k: int| 0 <= k < l1.len() ==> l1[k] != '\n');
    assert(forall|k: int| 0 <= k < l2.len() ==> l2[k] != '\n');
    assert(forall|k: int| 0 <= k < l3.len() ==> l3[k] != '\n');
    assert(forall|k: int| 0 <= k < l4.len() ==> l4[k] != '\n');
    lemma_header_line(st, l1, "CHASSIS"@);
    lemma_parse_from_step(st, l1, l2 + nl() + (l3 + nl() + (l4 + nl() + (e + nl() + rest))));
    let st1 = parse_line(st, l1);
    lemma_kv_line(st1, "Serial Number"@, c.serial_number);
    lemma_parse_from_step(st1, l2, l3 + nl() + (l4 + nl() + (e + nl() + rest)));
    let st2 = parse_line(st1, l2);
    assert(st2.baseline == upd_chassis_serial(st.baseline, c.serial_number));
    lemma_kv_line(st2, "Asset Tag"@, c.asset_tag);
    lemma_parse_from_step(st2, l3, l4 + nl() + (e + nl() + rest));
    let st3 = parse_line(st2, l3);
    assert(st3 == st2);
    lemma_kv_line(st3, "SKU"@, c.sku);
    lemma_parse_from_step(st3, l4, e + nl() + rest);
    let st4 = parse_line(st3, l4);
    assert(st4 == st3);
    lemma_blank_line(st4);
    lemma_parse_from_step(st4, e, rest);
}

/// A section whose list is empty: only its header line and the closing
/// blank line.
#[verifier::rlimit(100)]
proof fn lemma_parse_empty_section(st: ParseState, h: Seq<char>, name: Seq<char>, rest: Seq<char>)
    requires
        h == "=== "@ + name + " ==="@,
        name.len() > 0,
        !is_space_char(name[0]),
        !is_space_char(name[name.len() - 1]),
        forall|k: int| 0 <= k < h.len() ==> h[k] != '\n',
    ensures
        parse_from(st, h + nl() + (Seq::empty() + nl() + rest)) == parse_from(
            ParseState { baseline: st.baseline, section: name },
            rest,
        ),
{
    let e = Seq::<char>::empty();
    lemma_header_line(st, h, name);
    lemma_parse_from_step(st, h, e + nl() + rest);
    let st1 = parse_line(st, h);
    lemma_blank_line(st1);
    lemma_parse_from_step(st1, e, rest);
}

/// The round-trip law: for a snapshot whose lists are empty and whose
/// stored scalars contain no line terminator, parsing the serialized text
/// recovers exactly the non-sentinel scalars (system serial, UUID and SKU,
/// and the baseboard, processor and chassis serials), records nothing for
/// sentinel scalars, and recovers no list entries.
#[verifier::rlimit(100)]
pub proof fn lemma_round_trip(m: SnapshotView)
    requires
        m.wf(),
        m.disks.len() == 0,
        m.interfaces.len() == 0,
        m.monitors.len() == 0,
        m.gpus.len() == 0,
        !m.system.serial_number.contains('\n'),
        !m.system.uuid.contains('\n'),
        !m.system.sku.contains('\n'),
        !m.baseboard.serial_number.contains('\n'),
        !m.baseboard.asset_tag.contains('\n'),
        !m.processor.serial_number.contains('\n'),
        !m.processor.part_number.contains('\n'),
        !m.chassis.serial_number.contains('\n'),
        !m.chassis.asset_tag.contains('\n'),
        !m.chassis.sku.contains('\n'),
    ensures
        parse_spec(serialized_spec(m)) == (BaselineView {
            system_serial: recovered(m.system.serial_number),
            system_uuid: recovered(m.system.uuid),
            system_sku: recovered(m.system.sku),
            baseboard_serial: recovered(m.baseboard.serial_number),
            processor_serial: recovered(m.processor.serial_number),
            chassis_serial: recovered(m.chassis.serial_number),
            disk_serials: Seq::empty(),
            network_macs: Seq::empty(),
            monitor_serials: Seq::empty(),
            gpu_guids: Seq::empty(),
        }),
{
    lemma_normalized_line_safe(m.system.serial_number);
    lemma_normalized_line_safe(m.system.uuid);
    lemma_normalized_line_safe(m.system.sku);
    lemma_normalized_line_safe(m.baseboard.serial_number);
    lemma_normalized_line_safe(m.baseboard.asset_tag);
    lemma_normalized_line_safe(m.processor.serial_number);
    lemma_normalized_line_safe(m.processor.part_number);
    lemma_normalized_line_safe(m.chassis.serial_number);
    lemma_normalized_line_safe(m.chassis.asset_tag);
    lemma_normalized_line_safe(m.chassis.sku);
    reveal_strlit("=== DISKS ===");
    reveal_strlit("=== NETWORK ===");
    reveal_strlit("=== MONITORS ===");
    reveal_strlit("=== GPU ===");
    reveal_strlit("=== ");
    reveal_strlit(" ===");
    reveal_strlit("DISKS");
    reveal_strlit("NETWORK");
    reveal_strlit("MONITORS");
    reveal_strlit("GPU");
    reveal_strlit("\n");
    let hd = "=== DISKS ==="@;
    let hn = "=== NETWORK ==="@;
    let hm = "=== MONITORS ==="@;
    let hg = "=== GPU ==="@;
    assert(hd =~= "=== "@ + "DISKS"@ + " ==="@);
    assert(hn =~= "=== "@ + "NETWORK"@ + " ==="@);
    assert(hm =~= "=== "@ + "MONITORS"@ + " ==="@);
    assert(hg =~= "=== "@ + "GPU"@ + " ==="@);
    assert(forall|k: int| 0 <= k < hd.len() ==> hd[k] != '\n');
    assert(forall|k: int| 0 <= k < hn.len() ==> hn[k] != '\n');
    assert(forall|k: int| 0 <= k < hm.len() ==> hm[k] != '\n');
    assert(forall|k: int| 0 <= k < hg.len() ==> hg[k] != '\n');
    assert(disk_blocks(m.disks) =~= Seq::<char>::empty());
    assert(net_blocks(m.interfaces) =~= Seq::<char>::empty());
    assert(monitor_blocks(m.monitors) =~= Seq::<char>::empty());
    assert(gpu_blocks(m.gpus) =~= Seq::<char>::empty());
    let e = Seq::<char>::empty();
    let r7 = hg + nl();
    let r6 = hm + nl() + (e + nl() + r7);
    let r5 = hn + nl() + (e + nl() + r6);
    let r4 = hd + nl() + (e + nl() + r5);
    let r3 = chassis_section(m.chassis) + r4;
    let r2 = processor_section(m.processor) + r3;
    let r1 = baseboard_section(m.baseboard) + r2;
    assert(serialized_spec(m) =~= system_section(m.system) + r1);
    let st0 = init_state();
    lemma_parse_system(st0, m.system, r1);
    let st1 = ParseState {
        baseline: upd_sys_sku(
            upd_sys_uuid(upd_sys_serial(st0.baseline, m.system.serial_number), m.system.uuid),
            m.system.sku,
        ),
        section: "SYSTEM"@,
    };
    lemma_parse_baseboard(st1, m.baseboard, r2);
    let st2 = ParseState {
        baseline: upd_baseboard_serial(st1.baseline, m.baseboard.serial_number),
        section: "BASEBOARD"@,
    };
    lemma_parse_processor(st2, m.processor, r3);
    let st3 = ParseState {
        baseline: upd_processor_serial(st2.baseline, m.processor.serial_number),
        section: "PROCESSOR"@,
    };
    lemma_parse_chassis(st3, m.chassis, r4);
    let st4 = ParseState {
        baseline: upd_chassis_serial(st3.baseline, m.chassis.serial_number),
        section: "CHASSIS"@,
    };
    lemma_parse_empty_section(st4, hd, "DISKS"@, r5);
    let st5 = ParseState { baseline: st4.baseline, section: "DISKS"@ };
    lemma_parse_empty_section(st5, hn, "NETWORK"@, r6);
    let st6 = ParseState { baseline: st5.baseline, section: "NETWORK"@ };
    lemma_parse_empty_section(st6, hm, "MONITORS"@, r7);
    let st7 = ParseState { baseline: st6.baseline, section: "MONITORS"@ };
    assert(r7 =~= hg + nl() + e);
    lemma_header_line(st7, hg, "GPU"@);
    lemma_parse_from_step(st7, hg, e);
    let st8 = parse_line(st7, hg);
    assert(parse_from(st0, serialized_spec(m)) == st8);
    assert(st8.baseline =~= (BaselineView {
        system_serial: recovered(m.system.serial_number),
        system_uuid: recovered(m.system.uuid),
        system_sku: recovered(m.system.sku),
        baseboard_serial: recovered(m.baseboard.serial_number),
        processor_serial: recovered(m.processor.serial_number),
        chassis_serial: recovered(m.chassis.serial_number),
        disk_serials: Seq::empty(),
        network_macs: Seq::empty(),
        monitor_serials: Seq::empty(),
        gpu_guids: Seq::empty(),
    }));
}

} // verus!
