//! Backup rotation policy: when a new snapshot is due, how snapshot files are
//! named, and which of them pruning deletes — all decided from plain values
//! (clock readings and file names).
use vstd::prelude::*;
use vstd::string::StringExecFns;
use crate::num::{
    all_digits, dec_str, digits_val, lemma_dec_str_digits, parse_u64_range, parse_u64_spec,
    u64_to_string,
};
use crate::text::{chars_vec, has_prefix, has_suffix};

verus! {

/// Length of the rolling backup window, in seconds.
pub const BACKUP_INTERVAL_SECS: u64 = 86400;

/// How many snapshot files are retained after pruning.
pub const MAX_BACKUPS: usize = 7;

/// Whether a new backup is due: the newest existing backup is at least a full
/// window old. A last-backup time in the future counts as fresh.
pub fn needs_backup(now: u64, last_backup: u64) -> (r: bool)
    ensures
        r == (last_backup + BACKUP_INTERVAL_SECS <= now),
{
    now >= BACKUP_INTERVAL_SECS && last_backup <= now - BACKUP_INTERVAL_SECS
}

/// The directory that holds the snapshots, beside the store file.
pub fn get_backup_dir(app_data_dir: &str) -> (r: String)
    ensures
        r@ == app_data_dir@ + "/backups"@,
{
    let mut s = app_data_dir.to_owned();
    s.append("/backups");
    s
}

/// The name of the snapshot taken at `ts`: the store name with the epoch
/// seconds embedded.
pub open spec fn backup_name_spec(ts: u64) -> Seq<char> {
    "flashnotes_"@ + dec_str(ts as nat) + ".db"@
}

/// Renders the file name for a snapshot taken at `timestamp`.
pub fn backup_file_name(timestamp: u64) -> (r: String)
    ensures
        r@ == backup_name_spec(timestamp),
{
    let mut s = "flashnotes_".to_owned();
    let digits = u64_to_string(timestamp);
    s.append(digits.as_str());
    s.append(".db");
    proof {
        assert(s@ =~= backup_name_spec(timestamp));
    }
    s
}

/// The path of the snapshot `create_backup` writes for `timestamp`.
pub open spec fn backup_path_spec(dir: Seq<char>, ts: u64) -> Seq<char> {
    dir + "/"@ + backup_name_spec(ts)
}

/// Takes one consistent snapshot of the live store into the backup directory,
/// named after `timestamp`; the directory must already exist. Returns the
/// snapshot's path.
pub fn create_backup(conn: &rusqlite::Connection, backup_dir: &str, timestamp: u64) -> (r: Result<
    String,
    String,
>)
    ensures
        r matches Ok(p) ==> p@ == backup_path_spec(backup_dir@, timestamp),
        r matches Err(m) ==> m@.take("Failed to create backup"@.len() as int)
            == "Failed to create backup"@,
{
    let name = backup_file_name(timestamp);
    let mut path = backup_dir.to_owned();
    path.append("/");
    path.append(name.as_str());
    proof {
        assert(path@ =~= backup_path_spec(backup_dir@, timestamp));
    }
    match crate::sqlite::vacuum_into(conn, path.as_str()) {
        Ok(_) => Ok(path),
        Err(e) => crate::errors::map_db_error(Err(e), "Failed to create backup"),
    }
}

/// The path of the snapshot `create_migration_backup` writes.
pub open spec fn migration_backup_path_spec(dir: Seq<char>, ts: u64) -> Seq<char> {
    dir + "/flashnotes_premigration_"@ + dec_str(ts as nat) + ".db"@
}

/// Takes a pre-migration snapshot, named so that rotation never prunes it.
pub fn create_migration_backup(
    conn: &rusqlite::Connection,
    backup_dir: &str,
    timestamp: u64,
) -> (r: Result<String, String>)
    ensures
        r matches Ok(p) ==> p@ == migration_backup_path_spec(backup_dir@, timestamp),
        r matches Err(m) ==> m@.take("Failed to create migration backup"@.len() as int)
            == "Failed to create migration backup"@,
{
    let digits = u64_to_string(timestamp);
    let mut path = backup_dir.to_owned();
    path.append("/flashnotes_premigration_");
    path.append(digits.as_str());
    path.append(".db");
    proof {
        assert(path@ =~= migration_backup_path_spec(backup_dir@, timestamp));
    }
    match crate::sqlite::vacuum_into(conn, path.as_str()) {
        Ok(_) => Ok(path),
        Err(e) => crate::errors::map_db_error(Err(e), "Failed to create migration backup"),
    }
}

/// The timestamp a backup file name embeds, or `None` for any other name.
pub open spec fn backup_stamp_of(name: Seq<char>) -> Option<u64> {
    if name.len() >= 14 && name.take(11) == "flashnotes_"@ && name.skip(name.len() - 3)
        == ".db"@ {
        parse_u64_spec(name.subrange(11, name.len() - 3))
    } else {
        None
    }
}

/// Parses the timestamp out of a backup file name; foreign names give `None`.
pub fn parse_backup_timestamp(name: &str) -> (r: Option<u64>)
    ensures
        r == backup_stamp_of(name@),
{
    proof {
        reveal_strlit("flashnotes_");
        reveal_strlit(".db");
    }
    let v = chars_vec(name);
    if v.len() < 14 {
        return None;
    }
    if !has_prefix(&v, "flashnotes_") {
        return None;
    }
    if !has_suffix(&v, ".db") {
        return None;
    }
    parse_u64_range(&v, 11, v.len() - 3)
}

/// Law: the timestamp embedded by `backup_file_name` is recovered exactly by
/// the file-name parser.
pub proof fn lemma_backup_name_round_trip(ts: u64)
    ensures
        backup_stamp_of(backup_name_spec(ts)) == Some(ts),
{
    reveal_strlit("flashnotes_");
    reveal_strlit(".db");
    lemma_dec_str_digits(ts as nat);
    let name = backup_name_spec(ts);
    let d = dec_str(ts as nat);
    assert(name.take(11) =~= "flashnotes_"@);
    assert(name.skip(name.len() - 3) =~= ".db"@);
    assert(name.subrange(11, name.len() - 3) =~= d);
    assert(d[0] != '+') by {
        assert(crate::num::is_digit(d[0]));
    }
    assert(parse_u64_spec(d) == Some(ts));
}

/// The largest timestamp embedded in any of `names`; `0` when none parses.
pub open spec fn last_backup_time_spec(names: Seq<Seq<char>>) -> u64
    decreases names.len(),
{
    if names.len() == 0 {
        0u64
    } else {
        let rest = last_backup_time_spec(names.drop_last());
        match backup_stamp_of(names.last()) {
            Some(t) => if t > rest {
                t
            } else {
                rest
            },
            None => rest,
        }
    }
}

/// The newest backup's timestamp among the given file names, `0` with none.
#[verifier::loop_isolation(false)]
pub fn get_last_backup_time(names: &Vec<String>) -> (r: u64)
    ensures
        r == last_backup_time_spec(names.deep_view()),
{
    let ghost dv = names.deep_view();
    let mut best: u64 = 0;
    let mut i: usize = 0;
    proof {
        assert(dv.take(0) =~= Seq::<Seq<char>>::empty());
    }
    while i < names.len()
        invariant
            i <= names@.len(),
            best == last_backup_time_spec(dv.take(i as int)),
        decreases names@.len() - i,
    {
        let name_i = &names[i];
        let stamp = parse_backup_timestamp(name_i.as_str());
        proof {
            assert(dv.take(i + 1).drop_last() =~= dv.take(i as int));
            assert(dv.take(i + 1).last() == names@[i as int]@);
        }
        match stamp {
            Some(t) => {
                if t > best {
                    best = t;
                }
            },
            None => {},
        }
        i = i + 1;
    }
    proof {
        assert(dv.take(names@.len() as int) =~= dv);
    }
    best
}

/// `a` sorts before `b` in newest-first order: larger timestamp first, ties
/// broken by position.
pub open spec fn sorts_before(ts: Seq<u64>, a: int, b: int) -> bool {
    ts[a] > ts[b] || (ts[a] == ts[b] && a < b)
}

fn sorts_before_at(ts: &Vec<u64>, a: usize, b: usize) -> (r: bool)
    requires
        a < ts@.len(),
        b < ts@.len(),
    ensures
        r == sorts_before(ts@, a as int, b as int),
{
    ts[a] > ts[b] || (ts[a] == ts[b] && a < b)
}

/// Positions of the backups that pruning deletes, given the timestamp of each
/// file: everything but the `MAX_BACKUPS` newest stays. The indices returned
/// are distinct, and every position kept sorts before every position removed,
/// so exactly the `MAX_BACKUPS` newest files survive.
#[verifier::loop_isolation(false)]
pub fn select_backups_to_remove(ts: &Vec<u64>) -> (r: Vec<usize>)
    ensures
        r@.len() == if ts@.len() <= MAX_BACKUPS as int {
            0int
        } else {
            ts@.len() - MAX_BACKUPS as int
        },
        forall|x: int| 0 <= x < r@.len() ==> (#[trigger] r@[x]) < ts@.len(),
        forall|x: int, y: int| 0 <= x < y < r@.len() ==> r@[x] != r@[y],
        forall|i: int, x: int|
            #![trigger sorts_before(ts@, i, r@[x] as int)]
            0 <= i < ts@.len() && !r@.contains(i as usize) && 0 <= x < r@.len()
                ==> sorts_before(ts@, i, r@[x] as int),
{
    let n = ts.len();
    let mut perm: Vec<usize> = Vec::new();
    let mut k: usize = 0;
    while k < n
        invariant
            perm@.len() == k <= n,
            forall|a: int| 0 <= a < k ==> (#[trigger] perm@[a]) == a,
        decreases n - k,
    {
        perm.push(k);
        k = k + 1;
    }
    proof {
        assert forall|v: int| 0 <= v < n implies perm@.contains(#[trigger] (v as usize)) by {
            assert(perm@[v] == v as usize);
        }
    }
    let mut x: usize = 0;
    while x < n
        invariant
            perm@.len() == n,
            x <= n,
            forall|a: int| 0 <= a < n ==> (#[trigger] perm@[a]) < n,
            forall|v: int| 0 <= v < n ==> #[trigger] perm@.contains(v as usize),
            forall|a: int, b: int| 0 <= a < b < n ==> perm@[a] != perm@[b],
            forall|a: int, b: int|
                0 <= a < b < n && a < x ==> sorts_before(
                    ts@,
                    #[trigger] perm@[a] as int,
                    #[trigger] perm@[b] as int,
                ),
        decreases n - x,
    {
        let mut m: usize = x;
        let mut y: usize = x + 1;
        while y < n
            invariant
                x <= m < y <= n,
                forall|b: int|
                    x <= b < y && b != m ==> sorts_before(
                        ts@,
                        perm@[m as int] as int,
                        #[trigger] perm@[b] as int,
                    ),
            decreases n - y,
        {
            if sorts_before_at(ts, perm[y], perm[m]) {
                m = y;
            }
            y = y + 1;
        }
        let ghost old_perm = perm@;
        let tx = perm[x];
        let tm = perm[m];
        perm.set(x, tm);
        perm.set(m, tx);
        proof {
            assert(forall|a: int|
                0 <= a < n && a != x && a != m ==> (#[trigger] perm@[a]) == old_perm[a]);
            assert(perm@[x as int] == old_perm[m as int]);
            assert(perm@[m as int] == old_perm[x as int]);
            assert forall|v: int| 0 <= v < n implies perm@.contains(#[trigger] (v as usize)) by {
                assert(old_perm.contains(v as usize));
                let idx = choose|idx: int|
                    0 <= idx < old_perm.len() && old_perm[idx] == v as usize;
                if idx == x {
                    assert(perm@[m as int] == v as usize);
                } else if idx == m {
                    assert(perm@[x as int] == v as usize);
                } else {
                    assert(perm@[idx] == v as usize);
                }
            }
        }
        x = x + 1;
    }
    let mut r: Vec<usize> = Vec::new();
    if n > MAX_BACKUPS {
        let mut z: usize = MAX_BACKUPS;
        while z < n
            invariant
                MAX_BACKUPS <= z <= n,
                r@ =~= perm@.subrange(MAX_BACKUPS as int, z as int),
            decreases n - z,
        {
            let p = perm[z];
            r.push(p);
            proof {
                assert(r@ =~= perm@.subrange(MAX_BACKUPS as int, z + 1));
            }
            z = z + 1;
        }
        proof {
            assert forall|i: int, x_: int|
                #![trigger sorts_before(ts@, i, r@[x_] as int)]
                0 <= i < n && !r@.contains(i as usize) && 0 <= x_ < r@.len() implies sorts_before(
                ts@,
                i,
                r@[x_] as int,
            ) by {
                assert(perm@.contains(i as usize));
                let idx = choose|idx: int| 0 <= idx < n && perm@[idx] == i as usize;
                if idx >= MAX_BACKUPS {
                    assert(r@[idx - MAX_BACKUPS] == i as usize);
                    assert(r@.contains(i as usize));
                } else {
                    assert(r@[x_] == perm@[MAX_BACKUPS + x_]);
                    assert(sorts_before(
                        ts@,
                        perm@[idx] as int,
                        perm@[MAX_BACKUPS + x_] as int,
                    ));
                }
            }
        }
    }
    r
}

} // verus!
