//! Rendering of machine listings and of the credential in traces.
use vstd::prelude::*;
use crate::models::Machine;
use crate::text::{
    append_repeat, dec, decimal, decimal_zero_padded, is_whitespace, pad, pad_right, push_char,
    repeat, upper_of, uppercase, whitespace, zero_pad,
};

verus! {

/// The words of `s`: its maximal runs of non-whitespace characters, in order.
pub open spec fn words(s: Seq<char>) -> Seq<Seq<char>>
    decreases s.len(),
{
    if s.len() == 0 {
        seq![]
    } else {
        let p = words(s.drop_last());
        let c = s.last();
        if whitespace(c) {
            p
        } else if s.len() > 1 && !whitespace(s[s.len() - 2]) {
            p.drop_last().push(p.last().push(c))
        } else {
            p.push(seq![c])
        }
    }
}

/// Whether an occupancy code marks a rented GPU: `D` or `I`, in any case.
pub open spec fn is_rented_code(w: Seq<char>) -> bool {
    upper_of(w) == "D"@ || upper_of(w) == "I"@
}

/// How many of `ws` are rented codes.
pub open spec fn rented_count(ws: Seq<Seq<char>>) -> nat
    decreases ws.len(),
{
    if ws.len() == 0 {
        0
    } else {
        rented_count(ws.drop_last()) + if is_rented_code(ws.last()) {
            1nat
        } else {
            0nat
        }
    }
}

/// The occupancy column: `rented/total`, or `N/A` when it is unknown.
pub open spec fn occupancy_text(occ: Option<Seq<char>>) -> Seq<char> {
    match occ {
        Some(o) => dec(rented_count(words(o))) + "/"@ + dec(words(o).len()),
        None => "N/A"@,
    }
}

/// Whether an occupancy code, already in upper case, marks a rented GPU.
pub fn is_rented_upper(up: &str) -> (r: bool)
    ensures
        r == (up@ == "D"@ || up@ == "I"@),
{
    let s = String::from_str(up);
    s == String::from_str("D") || s == String::from_str("I")
}

/// Counts the GPU codes of an occupancy string and those that are rented.
pub fn occupancy_counts(occ: &str) -> (r: (u64, u64))
    requires
        occ@.len() < u64::MAX,
    ensures
        r.0 == rented_count(words(occ@)),
        r.1 == words(occ@).len(),
{
    let n = occ.unicode_len();
    let ghost s = occ@;
    let ghost mut done: Seq<Seq<char>> = seq![];
    let mut cur = String::new();
    let mut cur_len: usize = 0;
    let mut total: u64 = 0;
    let mut rented: u64 = 0;
    let mut i: usize = 0;
    while i < n
        invariant
            n == s.len(),
            s == occ@,
            i <= n,
            total == done.len(),
            rented == rented_count(done),
            rented <= total,
            total <= i,
            cur@.len() > 0 <==> (i > 0 && !whitespace(s[i - 1])),
            cur_len == cur@.len(),
            cur@.len() <= i,
            total + (if cur@.len() > 0 { 1int } else { 0int }) <= i,
            words(s.take(i as int)) == if cur@.len() > 0 {
                done.push(cur@)
            } else {
                done
            },
        decreases n - i,
    {
        let c = occ.get_char(i);
        let ghost old_cur = cur@;
        let ghost old_done = done;
        assert(s.take(i + 1).drop_last() =~= s.take(i as int));
        assert(s.take(i + 1).last() == c);
        assert(s.take(i + 1).len() == i + 1);
        if is_whitespace(c) {
            assert(words(s.take(i + 1)) == words(s.take(i as int)));
            if cur_len > 0 {
                let up = uppercase(cur.as_str());
                let is_rented = is_rented_upper(up.as_str());
                proof {
                    let ghost w = cur@;
                    assert(done.push(w).drop_last() =~= done);
                }
                if is_rented {
                    rented = rented + 1;
                }
                total = total + 1;
                proof {
                    done = done.push(cur@);
                }
                cur = String::new();
                cur_len = 0;
            }
        } else {
            proof {
                if i > 0 {
                    assert(s.take(i + 1)[i - 1] == s[i - 1]);
                }
            }
            push_char(&mut cur, c);
            cur_len = cur_len + 1;
            proof {
                if old_cur.len() > 0 {
                    assert(old_done.push(old_cur).drop_last() =~= old_done);
                    assert(words(s.take(i + 1)) == old_done.push(old_cur.push(c)));
                } else {
                    assert(old_cur.push(c) =~= seq![c]);
                    assert(words(s.take(i + 1)) == old_done.push(seq![c]));
                }
            }
        }
        i = i + 1;
    }
    assert(s.take(n as int) =~= s);
    if cur_len > 0 {
        let up = uppercase(cur.as_str());
        let is_rented = is_rented_upper(up.as_str());
        proof {
            assert(done.push(cur@).drop_last() =~= done);
        }
        if is_rented {
            rented = rented + 1;
        }
        total = total + 1;
    }
    (rented, total)
}

/// The occupancy column of a machine.
pub fn occupancy_display(occ: &Option<String>) -> (r: String)
    requires
        occ is Some ==> occ->0@.len() < u64::MAX,
    ensures
        r@ == occupancy_text(
            match occ {
                Some(o) => Some(o@),
                None => None,
            },
        ),
{
    match occ {
        Some(o) => {
            let (rented, total) = occupancy_counts(o.as_str());
            let mut r = decimal(rented);
            r.append("/");
            r.append(decimal(total).as_str());
            r
        },
        None => String::from_str("N/A"),
    }
}

/// Ten to the power `k`.
pub open spec fn pow10(k: nat) -> nat
    decreases k,
{
    if k == 0 {
        1
    } else {
        10 * pow10((k - 1) as nat)
    }
}

/// The absolute value of `v`.
pub open spec fn magnitude(v: int) -> nat {
    if v < 0 {
        (-v) as nat
    } else {
        v as nat
    }
}

/// The fixed-point number `v / 10^places`, written with exactly `places`
/// fractional digits.
pub open spec fn fixed_text(v: int, places: nat) -> Seq<char> {
    (if v < 0 {
        "-"@
    } else {
        Seq::<char>::empty()
    }) + dec(magnitude(v) / pow10(places)) + "."@ + zero_pad(magnitude(v) % pow10(places), places)
}

/// Writes the fixed-point number `v / 10^places` with `places` fractional
/// digits.
pub fn fixed_point(v: i64, places: u32) -> (r: String)
    requires
        1 <= places <= 18,
    ensures
        r@ == fixed_text(v as int, places as nat),
{
    let mut scale: u64 = 1;
    let mut k: u32 = 0;
    while k < places
        invariant
            k <= places <= 18,
            scale == pow10(k as nat),
            1 <= scale <= 1_000_000_000_000_000_000u64,
        decreases places - k,
    {
        proof {
            assert(pow10((k + 1) as nat) == 10 * pow10(k as nat));
            lemma_pow10_bound(k as nat);
        }
        scale = scale * 10;
        k = k + 1;
    }
    let mag: u64 = if v < 0 {
        ((-(v + 1)) as u64) + 1
    } else {
        v as u64
    };
    assert(mag == magnitude(v as int));
    let mut r = if v < 0 {
        String::from_str("-")
    } else {
        String::new()
    };
    r.append(decimal(mag / scale).as_str());
    r.append(".");
    r.append(decimal_zero_padded(mag % scale, places as usize).as_str());
    r
}

proof fn lemma_pow10_bound(k: nat)
    requires
        k < 18,
    ensures
        1 <= pow10(k) <= 100_000_000_000_000_000nat,
{
    lemma_pow10_mono(k, 17);
    lemma_pow10_mono(0, k);
    reveal_with_fuel(pow10, 18);
    assert(pow10(17) == 100_000_000_000_000_000nat);
}

proof fn lemma_pow10_mono(a: nat, b: nat)
    requires
        a <= b,
    ensures
        pow10(a) <= pow10(b),
    decreases b,
{
    if a < b {
        lemma_pow10_mono(a, (b - 1) as nat);
    }
}

/// A cell that shows `N/A` when its value is unknown.
pub open spec fn or_na(v: Option<Seq<char>>) -> Seq<char> {
    match v {
        Some(t) => t,
        None => "N/A"@,
    }
}

/// The temperature column: tenths of a degree, shown as `41.5°C`.
pub open spec fn temp_text(t: Option<i64>) -> Seq<char> {
    or_na(
        match t {
            Some(v) => Some(fixed_text(v as int, 1) + "°C"@),
            None => None,
        },
    )
}

/// The reliability column: hundredths of a percent, shown as `99.50%`.
pub open spec fn reliability_text(r: Option<i64>) -> Seq<char> {
    or_na(
        match r {
            Some(v) => Some(fixed_text(v as int, 2) + "%"@),
            None => None,
        },
    )
}

/// The earning column: ten-thousandths of a dollar, shown as `$0.2500/h`.
pub open spec fn earning_text(e: Option<i64>) -> Seq<char> {
    or_na(
        match e {
            Some(v) => Some("$"@ + fixed_text(v as int, 4) + "/h"@),
            None => None,
        },
    )
}

/// The view of an optional text.
pub open spec fn opt_view(o: Option<String>) -> Option<Seq<char>> {
    match o {
        Some(s) => Some(s@),
        None => None,
    }
}

/// The widths of the seven columns of the machine table.
pub open spec fn column_widths() -> Seq<nat> {
    seq![12nat, 20nat, 12nat, 12nat, 15nat, 12nat, 15nat]
}

/// The cells of `cells` padded to their column widths and joined by one space.
pub open spec fn row_text(cells: Seq<Seq<char>>) -> Seq<char>
    decreases cells.len(),
{
    if cells.len() == 0 {
        Seq::<char>::empty()
    } else if cells.len() == 1 {
        pad_right(cells[0], column_widths()[0])
    } else {
        row_text(cells.drop_last()) + " "@ + pad_right(
            cells.last(),
            column_widths()[cells.len() - 1],
        )
    }
}

/// The titles of the columns of the machine table.
pub open spec fn header_cells() -> Seq<Seq<char>> {
    seq![
        "Machine ID"@,
        "Hostname"@,
        "GPU Temp"@,
        "Reliability"@,
        "GPU Occupancy"@,
        "Earning"@,
        "Driver Ver"@,
    ]
}

/// The cells of one machine's row.
pub open spec fn machine_cells(m: Machine) -> Seq<Seq<char>> {
    seq![
        dec(m.machine_id as nat),
        m.hostname@,
        temp_text(m.gpu_max_cur_temp),
        reliability_text(m.reliability2),
        occupancy_text(opt_view(m.gpu_occupancy)),
        earning_text(m.earn_hour),
        or_na(opt_view(m.driver_version)),
    ]
}

/// The rule line above and below the machine table.
pub open spec fn rule_text() -> Seq<char> {
    repeat('=', 120)
}

/// Pads each of the seven cells to its column and joins them by spaces.
pub fn format_row(cells: &Vec<String>) -> (r: String)
    requires
        cells@.len() == 7,
    ensures
        r@ == row_text(cells@.map_values(|c: String| c@)),
{
    let ghost views = cells@.map_values(|c: String| c@);
    let widths: [usize; 7] = [12, 20, 12, 12, 15, 12, 15];
    let mut r = String::new();
    let mut i: usize = 0;
    while i < 7
        invariant
            i <= 7,
            cells@.len() == 7,
            views == cells@.map_values(|c: String| c@),
            forall|j: int| 0 <= j < 7 ==> widths@[j] == column_widths()[j],
            r@ == row_text(views.take(i as int)),
        decreases 7 - i,
    {
        let ghost before = r@;
        assert(views.take(i + 1).drop_last() =~= views.take(i as int));
        if i > 0 {
            r.append(" ");
        }
        r.append(pad(cells[i].as_str(), widths[i]).as_str());
        i = i + 1;
        assert(r@ =~= row_text(views.take(i as int)));
    }
    assert(views.take(7) =~= views);
    r
}

/// The temperature cell.
pub fn temp_cell(t: Option<i64>) -> (r: String)
    ensures
        r@ == temp_text(t),
{
    match t {
        Some(v) => {
            let mut r = fixed_point(v, 1);
            r.append("°C");
            r
        },
        None => String::from_str("N/A"),
    }
}

/// The reliability cell.
pub fn reliability_cell(v: Option<i64>) -> (r: String)
    ensures
        r@ == reliability_text(v),
{
    match v {
        Some(v) => {
            let mut r = fixed_point(v, 2);
            r.append("%");
            r
        },
        None => String::from_str("N/A"),
    }
}

/// The earning cell.
pub fn earning_cell(e: Option<i64>) -> (r: String)
    ensures
        r@ == earning_text(e),
{
    match e {
        Some(v) => {
            let mut r = String::from_str("$");
            r.append(fixed_point(v, 4).as_str());
            r.append("/h");
            r
        },
        None => String::from_str("N/A"),
    }
}

/// The header row of the machine table.
pub fn header_row() -> (r: String)
    ensures
        r@ == row_text(header_cells()),
{
    let cells: Vec<String> = vec![
        String::from_str("Machine ID"),
        String::from_str("Hostname"),
        String::from_str("GPU Temp"),
        String::from_str("Reliability"),
        String::from_str("GPU Occupancy"),
        String::from_str("Earning"),
        String::from_str("Driver Ver"),
    ];
    assert(cells@.map_values(|c: String| c@) =~= header_cells());
    format_row(&cells)
}

/// The row of one machine.
pub fn machine_row(m: &Machine) -> (r: String)
    requires
        m.gpu_occupancy is Some ==> m.gpu_occupancy->0@.len() < u64::MAX,
    ensures
        r@ == row_text(machine_cells(*m)),
{
    let driver = match &m.driver_version {
        Some(d) => d.clone(),
        None => String::from_str("N/A"),
    };
    let cells: Vec<String> = vec![
        decimal(m.machine_id),
        m.hostname.clone(),
        temp_cell(m.gpu_max_cur_temp),
        reliability_cell(m.reliability2),
        occupancy_display(&m.gpu_occupancy),
        earning_cell(m.earn_hour),
        driver,
    ];
    assert(cells@.map_values(|c: String| c@) =~= machine_cells(*m));
    format_row(&cells)
}

/// The rule line of the machine table.
pub fn rule_line() -> (r: String)
    ensures
        r@ == rule_text(),
{
    let mut r = String::new();
    append_repeat(&mut r, '=', 120);
    r
}

/// Whether `lines` is the table of `machines`: a rule, the header, a rule,
/// one row per machine in order, and a closing rule.
pub open spec fn is_machine_table(machines: Seq<Machine>, lines: Seq<Seq<char>>) -> bool {
    &&& lines.len() == machines.len() + 4
    &&& lines[0] == rule_text()
    &&& lines[1] == row_text(header_cells())
    &&& lines[2] == rule_text()
    &&& forall|i: int| 0 <= i < machines.len() ==> #[trigger] lines[i + 3] == row_text(machine_cells(machines[i]))
    &&& lines[lines.len() - 1] == rule_text()
}

/// The lines of the machine table, from the top rule to the bottom rule.
pub fn machine_table(machines: &Vec<Machine>) -> (r: Vec<String>)
    requires
        forall|i: int|
            0 <= i < machines@.len() ==> (#[trigger] machines@[i]).gpu_occupancy is Some
                ==> machines@[i].gpu_occupancy->0@.len() < u64::MAX,
    ensures
        is_machine_table(machines@, r@.map_values(|l: String| l@)),
{
    let mut r: Vec<String> = Vec::new();
    r.push(rule_line());
    r.push(header_row());
    r.push(rule_line());
    let mut i: usize = 0;
    while i < machines.len()
        invariant
            i <= machines@.len(),
            forall|j: int|
                0 <= j < machines@.len() ==> (#[trigger] machines@[j]).gpu_occupancy is Some
                    ==> machines@[j].gpu_occupancy->0@.len() < u64::MAX,
            r@.len() == i + 3,
            r@[0]@ == rule_text(),
            r@[1]@ == row_text(header_cells()),
            r@[2]@ == rule_text(),
            forall|j: int| 0 <= j < i ==> #[trigger] r@[j + 3]@ == row_text(machine_cells(machines@[j])),
        decreases machines@.len() - i,
    {
        let line = machine_row(&machines[i]);
        r.push(line);
        i = i + 1;
    }
    r.push(rule_line());
    let ghost lines = r@.map_values(|l: String| l@);
    assert(forall|j: int| 0 <= j < machines@.len() ==> #[trigger] lines[j + 3] == r@[j + 3]@);
    r
}

/// The authorization header as traces show it: the scheme, eight asterisks
/// and the last four characters of the key (all of it when it is shorter).
pub open spec fn masked_text(key: Seq<char>) -> Seq<char> {
    "Bearer ********"@ + key.subrange(
        if key.len() >= 4 {
            key.len() - 4
        } else {
            0
        },
        key.len() as int,
    )
}

/// Masks an API key for display, keeping only its last four characters.
pub fn mask_authorization(api_key: &str) -> (r: String)
    ensures
        r@ == masked_text(api_key@),
{
    let n = api_key.unicode_len();
    let start: usize = if n >= 4 {
        n - 4
    } else {
        0
    };
    let mut r = String::from_str("Bearer ********");
    r.append(api_key.substring_char(start, n));
    r
}

} // verus!
