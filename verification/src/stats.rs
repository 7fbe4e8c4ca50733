//! Per-account counters, and the report on them that goes to the console.
use vstd::prelude::*;

use crate::telegram::{entries_view, sum_solutions, total_solutions, EntryView, StatEntry};
use crate::text::{decimal, decimal_text, join_lines, joined, pad_right, padded, texts};

verus! {

/// The shortest time over which a hash rate is measured, in nanoseconds.
pub const MIN_WINDOW_NANOS: u128 = 1_000_000;

/// The counters of one account. Times are in nanoseconds on a clock that never runs back.
/// The hash rate is `window_hashes` over `window_nanos`.
#[derive(Clone, Debug)]
pub struct AccountStats {
    pub label: String,
    pub hashes: u64,
    pub solutions: u64,
    pub last_update: u128,
    pub window_hashes: u64,
    pub window_nanos: u128,
}

/// The time from `from` to `to`, and at least the shortest window.
pub open spec fn window(from: u128, to: u128) -> int {
    if to - from < MIN_WINDOW_NANOS {
        MIN_WINDOW_NANOS as int
    } else {
        to - from
    }
}

impl AccountStats {
    /// The hash rate is measured over some time.
    pub open spec fn wf(self) -> bool {
        self.window_nanos >= MIN_WINDOW_NANOS
    }

    /// Counters at zero.
    pub fn new(label: String, now: u128) -> (r: Self)
        ensures
            r.wf(),
            r.label@ == label@,
            r.hashes == 0,
            r.solutions == 0,
            r.last_update == now,
            r.window_hashes == 0,
            r.window_nanos == MIN_WINDOW_NANOS,
    {
        AccountStats {
            label,
            hashes: 0,
            solutions: 0,
            last_update: now,
            window_hashes: 0,
            window_nanos: MIN_WINDOW_NANOS,
        }
    }

    /// Counts `new_hashes`, and measures the hash rate over the time since the last update.
    pub fn update_rate(&mut self, new_hashes: u64, now: u128)
        requires
            old(self).hashes + new_hashes <= u64::MAX,
        ensures
            final(self).wf(),
            final(self).label == old(self).label,
            final(self).solutions == old(self).solutions,
            final(self).hashes == old(self).hashes + new_hashes,
            final(self).last_update == now,
            final(self).window_hashes == new_hashes,
            final(self).window_nanos == window(old(self).last_update, now),
    {
        let elapsed: u128 = if now < self.last_update {
            0
        } else {
            now - self.last_update
        };
        self.window_nanos = if elapsed < MIN_WINDOW_NANOS {
            MIN_WINDOW_NANOS
        } else {
            elapsed
        };
        self.window_hashes = new_hashes;
        self.hashes = self.hashes + new_hashes;
        self.last_update = now;
    }

    /// Counts a confirmed solution.
    pub fn record_solution(&mut self)
        requires
            old(self).solutions < u64::MAX,
        ensures
            *final(self) == (AccountStats {
                solutions: (old(self).solutions + 1) as u64,
                ..*old(self)
            }),
    {
        self.solutions = self.solutions + 1;
    }
}

/// The entry of a report on one account.
pub open spec fn entry_of(stats: AccountStats, hashrate: Seq<char>) -> EntryView {
    EntryView { label: stats.label@, hashrate, solutions: stats.solutions }
}

/// Takes down the counters of all accounts, with their rendered hash rates.
pub fn collect_stats(all_stats: &[AccountStats], hashrates: &[String]) -> (r: Vec<StatEntry>)
    requires
        all_stats@.len() == hashrates@.len(),
    ensures
        entries_view(r@) == Seq::new(
            all_stats@.len(),
            |i: int| entry_of(all_stats@[i], hashrates@[i]@),
        ),
{
    let ghost all = Seq::new(
        all_stats@.len(),
        |i: int| entry_of(all_stats@[i], hashrates@[i]@),
    );
    let mut out: Vec<StatEntry> = Vec::new();
    let mut i: usize = 0;
    while i < all_stats.len()
        invariant
            i <= all_stats@.len(),
            all_stats@.len() == hashrates@.len(),
            all == Seq::new(
                all_stats@.len(),
                |i: int| entry_of(all_stats@[i], hashrates@[i]@),
            ),
            entries_view(out@) == all.take(i as int),
        decreases all_stats.len() - i,
    {
        let entry = StatEntry {
            label: all_stats[i].label.clone(),
            hashrate: hashrates[i].clone(),
            solutions: all_stats[i].solutions,
        };
        let ghost before = out@;
        out.push(entry);
        proof {
            assert(entries_view(out@) == entries_view(before).push(entry@));
            assert(all.take(i as int + 1) == all.take(i as int).push(all[i as int]));
        }
        i += 1;
    }
    proof {
        assert(all.take(all.len() as int) == all);
    }
    out
}

/// The line of one account on the console.
pub open spec fn console_row(e: EntryView) -> Seq<char> {
    "   "@ + padded(e.label, 20) + " | "@ + e.hashrate + " MH/s | "@ + decimal(e.solutions as nat)
        + " solutions"@
}

/// The report on the console.
pub open spec fn console_text(
    entries: Seq<EntryView>,
    total_rate: Seq<char>,
    elapsed: Seq<char>,
) -> Seq<char> {
    "\n📊 Stats ("@ + elapsed + "s elapsed):\n"@ + joined(
        entries.map_values(|e: EntryView| console_row(e)),
        "\n"@,
    ) + (if entries.len() == 0 {
        ""@
    } else {
        "\n"@
    }) + "   Total: "@ + total_rate + " MH/s | "@ + decimal(total_solutions(entries))
        + " solutions\n"@
}

/// Writes the report for the console.
pub fn console_report(entries: &[StatEntry], total_rate: &str, elapsed: &str) -> (r: String)
    requires
        total_solutions(entries_view(entries@)) <= u64::MAX,
    ensures
        r@ == console_text(entries_view(entries@), total_rate@, elapsed@),
{
    let ghost all = entries_view(entries@).map_values(|e: EntryView| console_row(e));
    let mut rows: Vec<String> = Vec::new();
    let mut i: usize = 0;
    while i < entries.len()
        invariant
            i <= entries@.len(),
            all == entries_view(entries@).map_values(|e: EntryView| console_row(e)),
            texts(rows@) == all.take(i as int),
        decreases entries.len() - i,
    {
        let mut row = "   ".to_owned();
        row.append(pad_right(entries[i].label.as_str(), 20).as_str());
        row.append(" | ");
        row.append(entries[i].hashrate.as_str());
        row.append(" MH/s | ");
        row.append(decimal_text(entries[i].solutions).as_str());
        row.append(" solutions");
        let ghost before = rows@;
        rows.push(row);
        proof {
            assert(texts(rows@) == texts(before).push(row@));
            assert(all.take(i as int + 1) == all.take(i as int).push(all[i as int]));
        }
        i += 1;
    }
    proof {
        assert(all.take(all.len() as int) == all);
    }
    let mut out = "\n📊 Stats (".to_owned();
    out.append(elapsed);
    out.append("s elapsed):\n");
    out.append(join_lines(&rows).as_str());
    out.append(
        if entries.len() == 0 {
            ""
        } else {
            "\n"
        },
    );
    out.append("   Total: ");
    out.append(total_rate);
    out.append(" MH/s | ");
    out.append(decimal_text(sum_solutions(entries)).as_str());
    out.append(" solutions\n");
    out
}

/// The time over which a rate is measured is the time that has passed, whatever it is, but no
/// less than a thousandth of a second.
pub proof fn law_window(from: u128, to: u128)
    ensures
        to - from >= 1_000_000 ==> window(from, to) == to - from,
        to - from < 1_000_000 ==> window(from, to) == 1_000_000,
        MIN_WINDOW_NANOS == 1_000_000,
{
}

/// An entry holds the name and the solutions of its account, and its rendered rate.
pub proof fn law_entry(stats: AccountStats, hashrate: Seq<char>)
    ensures
        entry_of(stats, hashrate).label == stats.label@,
        entry_of(stats, hashrate).hashrate == hashrate,
        entry_of(stats, hashrate).solutions == stats.solutions,
{
}

/// The report on the console: a heading with the elapsed time, one line for each account with
/// its name in a column of twenty characters, and a line with the totals.
pub proof fn law_console_report(
    entries: Seq<EntryView>,
    total_rate: Seq<char>,
    elapsed: Seq<char>,
    rows: Seq<Seq<char>>,
    total: nat,
)
    requires
        rows.len() == entries.len(),
        forall|i: int|
            0 <= i < entries.len() ==> #[trigger] rows[i] == "   "@ + padded(entries[i].label, 20)
                + " | "@ + entries[i].hashrate + " MH/s | "@ + decimal(entries[i].solutions as nat)
                + " solutions"@,
        total == total_solutions(entries),
    ensures
        entries.len() > 0 ==> console_text(entries, total_rate, elapsed) == "\n📊 Stats ("@
            + elapsed + "s elapsed):\n"@ + joined(rows, "\n"@) + "\n"@ + "   Total: "@
            + total_rate + " MH/s | "@ + decimal(total) + " solutions\n"@,
        entries.len() == 0 ==> console_text(entries, total_rate, elapsed) == "\n📊 Stats ("@
            + elapsed + "s elapsed):\n"@ + "   Total: "@ + total_rate + " MH/s | "@ + decimal(
            total,
        ) + " solutions\n"@,
{
    assert(entries.map_values(|e: EntryView| console_row(e)) =~= rows);
    if entries.len() == 0 {
        reveal_strlit("");
        let head = "\n📊 Stats ("@ + elapsed + "s elapsed):\n"@;
        assert(head + joined(rows, "\n"@) + ""@ =~= head);
    }
}

} // verus!
