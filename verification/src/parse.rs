//! Parsing the durable text format back into a baseline: a single forward
//! pass over lines that never fails, only recovers fewer fields.

use vstd::prelude::*;

use crate::baseline::{empty_baseline, BaselineView, PreviousSerials};
use crate::chars::{
    chars_of, contains_seq, contains_sub, drop_leading, drop_trailing, find_char,
    lemma_drop_leading_skip, lemma_drop_trailing_take, lemma_find_char_at, lemma_find_char_none,
    str_eq, trim_spec, trim_str,
};
use crate::normalize::sentinel;

verus! {

/// The running state of the scan: what was recovered so far and the
/// section the scan is in.
#[verifier::ext_equal]
pub struct ParseState {
    pub baseline: BaselineView,
    pub section: Seq<char>,
}

/// The state before any line: nothing recovered, no section.
pub open spec fn init_state() -> ParseState {
    ParseState { baseline: empty_baseline(), section: Seq::empty() }
}

/// A trimmed line that opens a section: delimiter runs on both ends.
pub open spec fn is_header(t: Seq<char>) -> bool {
    t.len() >= 3 && t.take(3) == "==="@ && t.skip(t.len() - 3) == "==="@
}

pub open spec fn eq_pred() -> spec_fn(char) -> bool {
    |c: char| c == '='
}

/// The section a header line names: the text between the delimiter runs,
/// trimmed.
pub open spec fn section_name(t: Seq<char>) -> Seq<char> {
    trim_spec(drop_trailing(drop_leading(t, eq_pred()), eq_pred()))
}

/// Where a recognized key-value line is recorded, by section and key.
pub open spec fn dispatch(b: BaselineView, sec: Seq<char>, key: Seq<char>, value: Seq<char>)
    -> BaselineView {
    if sec == "SYSTEM"@ {
        if key == "Serial Number"@ {
            BaselineView { system_serial: Option::Some(value), ..b }
        } else if key == "UUID"@ {
            BaselineView { system_uuid: Option::Some(value), ..b }
        } else if key == "SKU"@ {
            BaselineView { system_sku: Option::Some(value), ..b }
        } else {
            b
        }
    } else if sec == "BASEBOARD"@ {
        if key == "Serial Number"@ {
            BaselineView { baseboard_serial: Option::Some(value), ..b }
        } else {
            b
        }
    } else if sec == "PROCESSOR"@ {
        if key == "Serial Number"@ {
            BaselineView { processor_serial: Option::Some(value), ..b }
        } else {
            b
        }
    } else if sec == "CHASSIS"@ {
        if key == "Serial Number"@ {
            BaselineView { chassis_serial: Option::Some(value), ..b }
        } else {
            b
        }
    } else if sec == "DISKS"@ {
        if contains_seq(key, "Serial"@) {
            BaselineView { disk_serials: b.disk_serials.push(value), ..b }
        } else {
            b
        }
    } else if sec == "NETWORK"@ {
        BaselineView { network_macs: b.network_macs.push(value), ..b }
    } else if sec == "MONITORS"@ {
        if key == "Serial Number"@ {
            BaselineView { monitor_serials: b.monitor_serials.push(value), ..b }
        } else {
            b
        }
    } else if sec == "GPU"@ {
        if contains_seq(key, "GUID"@) {
            BaselineView { gpu_guids: b.gpu_guids.push(value), ..b }
        } else {
            b
        }
    } else {
        b
    }
}

/// One line of the scan: a header switches the section; a key-value line
/// with a usable value is dispatched; everything else is skipped.
pub open spec fn parse_line(st: ParseState, line: Seq<char>) -> ParseState {
    let t = trim_spec(line);
    if is_header(t) {
        ParseState { baseline: st.baseline, section: section_name(t) }
    } else {
        let i = find_char(t, ':');
        if i == -1 {
            st
        } else {
            let key = trim_spec(t.take(i));
            let value = trim_spec(t.skip(i + 1));
            if value.len() == 0 || value == sentinel() {
                st
            } else {
                ParseState { baseline: dispatch(st.baseline, st.section, key, value), ..st }
            }
        }
    }
}

/// The scan over a whole text: lines are the maximal runs between line
/// terminators; an unterminated tail still counts as a line.
pub open spec fn parse_from(st: ParseState, s: Seq<char>) -> ParseState
    decreases s.len(),
{
    if s.len() == 0 {
        st
    } else {
        let i = find_char(s, '\n');
        if 0 <= i < s.len() {
            parse_from(parse_line(st, s.take(i)), s.skip(i + 1))
        } else {
            parse_line(st, s)
        }
    }
}

/// What parsing recovers from a durable text: total over any input.
pub open spec fn parse_spec(content: Seq<char>) -> BaselineView {
    parse_from(init_state(), content).baseline
}

/// Applies one line to the running state.
#[verifier::rlimit(80)]
fn process_line(b: &mut PreviousSerials, section: &mut String, line: &str)
    ensures
        final(b)@ == parse_line(
            ParseState { baseline: old(b)@, section: old(section)@ },
            line@,
        ).baseline,
        final(section)@ == parse_line(
            ParseState { baseline: old(b)@, section: old(section)@ },
            line@,
        ).section,
{
    let ghost st0 = ParseState { baseline: b@, section: section@ };
    let t = trim_str(line);
    let tl = t.unicode_len();
    let mut is_hdr = false;
    if tl >= 3 {
        if t.get_char(0) == '=' && t.get_char(1) == '=' && t.get_char(2) == '=' && t.get_char(
            tl - 3,
        ) == '=' && t.get_char(tl - 2) == '=' && t.get_char(tl - 1) == '=' {
            is_hdr = true;
        }
    }
    proof {
        reveal_strlit("===");
        if is_hdr {
            assert(t@.take(3) =~= "==="@);
            assert(t@.skip(tl - 3) =~= "==="@);
            assert(is_header(t@));
        } else {
            if tl >= 3 && is_header(t@) {
                assert(t@[0] == t@.take(3)[0] && t@[1] == t@.take(3)[1] && t@[2] == t@.take(3)[2]);
                assert(t@[tl - 3] == t@.skip(tl - 3)[0] && t@[tl - 2] == t@.skip(tl - 3)[1] && t@[
                    tl - 1
                ] == t@.skip(tl - 3)[2]);
                assert(false);
            }
            assert(!is_header(t@));
        }
    }
    if is_hdr {
        let mut a: usize = 0;
        while a < tl && t.get_char(a) == '='
            invariant
                0 <= a <= tl,
                tl == t@.len(),
                forall|k: int| 0 <= k < a ==> t@[k] == '=',
            decreases tl - a,
        {
            a += 1;
        }
        if a == tl {
            proof {
                lemma_drop_leading_skip(t@, eq_pred(), tl as int);
                assert(t@.skip(tl as int) =~= Seq::<char>::empty());
                assert(section_name(t@) =~= Seq::<char>::empty());
            }
            *section = String::new();
        } else {
            let mut z: usize = tl - 1;
            while z > a && t.get_char(z) == '='
                invariant
                    a <= z < tl,
                    tl == t@.len(),
                    !(t@[a as int] == '='),
                    forall|k: int| z < k < tl ==> t@[k] == '=',
                decreases z,
            {
                z -= 1;
            }
            let sub = trim_str(t.substring_char(a, z + 1));
            proof {
                lemma_drop_leading_skip(t@, eq_pred(), a as int);
                let u = t@.skip(a as int);
                lemma_drop_trailing_take(u, eq_pred(), z - a);
                assert(u.take(z - a + 1) =~= t@.subrange(a as int, z + 1));
            }
            *section = String::from_str(sub);
        }
        proof {
            assert(b@ == parse_line(st0, line@).baseline);
            assert(section@ == parse_line(st0, line@).section);
        }
    } else {
        let mut j: usize = 0;
        while j < tl && t.get_char(j) != ':'
            invariant
                0 <= j <= tl,
                tl == t@.len(),
                forall|k: int| 0 <= k < j ==> t@[k] != ':',
            decreases tl - j,
        {
            j += 1;
        }
        if j == tl {
            proof {
                lemma_find_char_none(t@, ':');
            }
        } else {
            proof {
                lemma_find_char_at(t@, ':', j as int);
            }
            let key = trim_str(t.substring_char(0, j));
            let value = trim_str(t.substring_char(j + 1, tl));
            proof {
                assert(t@.subrange(0, j as int) =~= t@.take(j as int));
                assert(t@.subrange(j + 1, tl as int) =~= t@.skip(j + 1));
            }
            if value.unicode_len() == 0 || str_eq(value, "N/A") {
            } else {
                let ghost val = value@;
                let ghost keyv = key@;
                let ghost sec = section@;
                if str_eq(section.as_str(), "SYSTEM") {
                    if str_eq(key, "Serial Number") {
                        b.system_serial = Option::Some(String::from_str(value));
                    } else if str_eq(key, "UUID") {
                        b.system_uuid = Option::Some(String::from_str(value));
                    } else if str_eq(key, "SKU") {
                        b.system_sku = Option::Some(String::from_str(value));
                    }
                } else if str_eq(section.as_str(), "BASEBOARD") {
                    if str_eq(key, "Serial Number") {
                        b.baseboard_serial = Option::Some(String::from_str(value));
                    }
                } else if str_eq(section.as_str(), "PROCESSOR") {
                    if str_eq(key, "Serial Number") {
                        b.processor_serial = Option::Some(String::from_str(value));
                    }
                } else if str_eq(section.as_str(), "CHASSIS") {
                    if str_eq(key, "Serial Number") {
                        b.chassis_serial = Option::Some(String::from_str(value));
                    }
                } else if str_eq(section.as_str(), "DISKS") {
                    let kc = chars_of(key);
                    if contains_sub(&kc, "Serial") {
                        let ghost pre = b.disk_serials.deep_view();
                        b.disk_serials.push(String::from_str(value));
                        proof {
                            assert(b.disk_serials.deep_view() =~= pre.push(val));
                        }
                    }
                } else if str_eq(section.as_str(), "NETWORK") {
                    let ghost pre = b.network_macs.deep_view();
                    b.network_macs.push(String::from_str(value));
                    proof {
                        assert(b.network_macs.deep_view() =~= pre.push(val));
                    }
                } else if str_eq(section.as_str(), "MONITORS") {
                    if str_eq(key, "Serial Number") {
                        let ghost pre = b.monitor_serials.deep_view();
                        b.monitor_serials.push(String::from_str(value));
                        proof {
                            assert(b.monitor_serials.deep_view() =~= pre.push(val));
                        }
                    }
                } else if str_eq(section.as_str(), "GPU") {
                    let kc = chars_of(key);
                    if contains_sub(&kc, "GUID") {
                        let ghost pre = b.gpu_guids.deep_view();
                        b.gpu_guids.push(String::from_str(value));
                        proof {
                            assert(b.gpu_guids.deep_view() =~= pre.push(val));
                        }
                    }
                }
                proof {
                    assert(b@ =~= dispatch(st0.baseline, sec, keyv, val));
                }
            }
        }
        proof {
            assert(b@ == parse_line(st0, line@).baseline);
            assert(section@ == parse_line(st0, line@).section);
        }
    }
}

impl PreviousSerials {
    /// Parses a durable text into a baseline.  The scan is total: any
    /// input yields a baseline, malformed parts only leave fields
    /// unrecovered.
    pub fn parse(content: &str) -> (r: PreviousSerials)
        ensures
            r@ == parse_spec(content@),
    {
        let n = content.unicode_len();
        let mut b = PreviousSerials::default();
        let mut section: String = String::new();
        let mut pos: usize = 0;
        proof {
            assert(content@.skip(0) =~= content@);
        }
        while pos < n
            invariant
                0 <= pos <= n,
                n == content@.len(),
                parse_from(init_state(), content@) == parse_from(
                    ParseState { baseline: b@, section: section@ },
                    content@.skip(pos as int),
                ),
            decreases n - pos,
        {
            let mut e: usize = pos;
            while e < n && content.get_char(e) != '\n'
                invariant
                    pos <= e <= n,
                    n == content@.len(),
                    forall|k: int| pos <= k < e ==> #[trigger] content@[k] != '\n',
                decreases n - e,
            {
                e += 1;
            }
            let line = content.substring_char(pos, e);
            proof {
                let suf = content@.skip(pos as int);
                assert(forall|k: int| 0 <= k < e - pos ==> suf[k] == content@[k + pos]);
                if e < n {
                    assert(suf[e - pos] == content@[e as int]);
                    lemma_find_char_at(suf, '\n', e - pos);
                } else {
                    lemma_find_char_none(suf, '\n');
                }
                assert(suf.take(e - pos) =~= content@.subrange(pos as int, e as int));
            }
            let ghost st_before = ParseState { baseline: b@, section: section@ };
            process_line(&mut b, &mut section, line);
            proof {
                let suf = content@.skip(pos as int);
                if e < n {
                    assert(suf.skip(e - pos + 1) =~= content@.skip(e + 1));
                    assert(parse_from(st_before, suf) == parse_from(
                        parse_line(st_before, line@),
                        content@.skip(e + 1),
                    ));
                } else {
                    assert(parse_from(st_before, suf) == parse_line(st_before, line@));
                    assert(content@.skip(n as int) =~= Seq::<char>::empty());
                }
            }
            pos = if e < n {
                e + 1
            } else {
                n
            };
        }
        proof {
            assert(content@.skip(n as int) =~= Seq::<char>::empty());
        }
        b
    }
}

} // verus!
