//! An in-memory reference implementation of the host contract.
//!
//! It is the evidence that the imported-operation contract can be honored,
//! and a complete embedding to exercise guests against: fetches and
//! GraphQL queries echo the request back, the database is a list of rows
//! matched structurally, and a scripted failure budget lets callers drill
//! the protocol's error paths. Responses that do not fit the wire's size
//! range are reported as the unknown error.

use vstd::prelude::*;

use crate::host::abs_size;
use crate::host::HostRuntime;
use crate::mem::Arena;
use crate::util::bytes_eq;
use vstd::slice::slice_to_vec;

verus! {

/// The map an entry list denotes: a later entry shadows an earlier one
/// under the same key.
pub open spec fn kv_map<K>(s: Seq<(K, Seq<u8>)>) -> Map<K, Seq<u8>>
    decreases s.len(),
{
    if s.len() == 0 {
        Map::<K, Seq<u8>>::empty()
    } else {
        kv_map(s.drop_last()).insert(s.last().0, s.last().1)
    }
}

/// An entry list of owned byte pairs, viewed.
pub open spec fn entries_bytes(s: Seq<(Vec<u8>, Vec<u8>)>) -> Seq<(Seq<u8>, Seq<u8>)> {
    s.map_values(|e: (Vec<u8>, Vec<u8>)| (e.0@, e.1@))
}

/// If position `j` holds key `k` and no later position does, the denoted
/// map's entry at `k` is `j`'s value.
proof fn lemma_kv_map_found<K>(s: Seq<(K, Seq<u8>)>, k: K, j: int)
    requires
        0 <= j < s.len(),
        s[j].0 == k,
        forall|l: int| j < l < s.len() ==> (#[trigger] s[l]).0 != k,
    ensures
        kv_map(s).contains_key(k),
        kv_map(s)[k] == s[j].1,
    decreases s.len(),
{
    if j == s.len() - 1 {
    } else {
        lemma_kv_map_found(s.drop_last(), k, j);
        assert(s.last().0 != k);
    }
}

/// If no position holds key `k`, the denoted map has no entry at `k`.
proof fn lemma_kv_map_absent<K>(s: Seq<(K, Seq<u8>)>, k: K)
    requires
        forall|l: int| 0 <= l < s.len() ==> (#[trigger] s[l]).0 != k,
    ensures
        !kv_map(s).contains_key(k),
    decreases s.len(),
{
    if s.len() > 0 {
        lemma_kv_map_absent(s.drop_last(), k);
    }
}

/// Look `key` up in an entry list, later entries shadowing earlier ones.
fn kv_lookup(entries: &Vec<(Vec<u8>, Vec<u8>)>, key: &[u8]) -> (r: Option<Vec<u8>>)
    ensures
        r matches Some(v) ==> kv_map(entries_bytes(entries@)).contains_key(key@) && v@ == kv_map(
            entries_bytes(entries@),
        )[key@],
        r is None ==> !kv_map(entries_bytes(entries@)).contains_key(key@),
{
    let ghost s = entries_bytes(entries@);
    let mut i: usize = entries.len();
    while i > 0
        invariant
            i <= entries@.len(),
            s == entries_bytes(entries@),
            forall|l: int| i <= l < s.len() ==> (#[trigger] s[l]).0 != key@,
        decreases i,
    {
        i = i - 1;
        if bytes_eq(entries[i].0.as_slice(), key) {
            proof {
                lemma_kv_map_found(s, key@, i as int);
            }
            return Some(slice_to_vec(entries[i].1.as_slice()));
        }
    }
    proof {
        lemma_kv_map_absent(s, key@);
    }
    None
}

/// A request-field entry list, viewed with its composite key.
pub open spec fn field_entries_bytes(s: Seq<(i32, Vec<u8>, Vec<u8>)>) -> Seq<
    ((int, Seq<u8>), Seq<u8>),
> {
    s.map_values(|e: (i32, Vec<u8>, Vec<u8>)| ((e.0 as int, e.1@), e.2@))
}

/// Look a field up by type code and key, later entries shadowing earlier
/// ones.
fn field_lookup(entries: &Vec<(i32, Vec<u8>, Vec<u8>)>, field_type: i32, key: &[u8]) -> (r: Option<
    Vec<u8>,
>)
    ensures
        r matches Some(v) ==> kv_map(field_entries_bytes(entries@)).contains_key(
            (field_type as int, key@),
        ) && v@ == kv_map(field_entries_bytes(entries@))[(field_type as int, key@)],
        r is None ==> !kv_map(field_entries_bytes(entries@)).contains_key(
            (field_type as int, key@),
        ),
{
    let ghost s = field_entries_bytes(entries@);
    let mut i: usize = entries.len();
    while i > 0
        invariant
            i <= entries@.len(),
            s == field_entries_bytes(entries@),
            forall|l: int| i <= l < s.len() ==> (#[trigger] s[l]).0 != (field_type as int, key@),
        decreases i,
    {
        i = i - 1;
        if entries[i].0 == field_type && bytes_eq(entries[i].1.as_slice(), key) {
            proof {
                lemma_kv_map_found(s, (field_type as int, key@), i as int);
            }
            return Some(slice_to_vec(entries[i].2.as_slice()));
        }
    }
    proof {
        lemma_kv_map_absent(s, (field_type as int, key@));
    }
    None
}

/// A deep copy of an entry list.
fn copy_entries(v: &Vec<(Vec<u8>, Vec<u8>)>) -> (r: Vec<(Vec<u8>, Vec<u8>)>)
    ensures
        entries_bytes(r@) == entries_bytes(v@),
{
    let mut out: Vec<(Vec<u8>, Vec<u8>)> = Vec::new();
    let mut i: usize = 0;
    while i < v.len()
        invariant
            i <= v@.len(),
            out@.len() == i,
            forall|j: int|
                0 <= j < i ==> (#[trigger] out@[j]).0@ == v@[j].0@ && out@[j].1@ == v@[j].1@,
        decreases v@.len() - i,
    {
        out.push((slice_to_vec(v[i].0.as_slice()), slice_to_vec(v[i].1.as_slice())));
        i = i + 1;
    }
    proof {
        assert(entries_bytes(out@) =~= entries_bytes(v@));
    }
    out
}

/// Whether `row` carries every (name, value) pair of `want`.
fn row_matches(row: &Vec<(Vec<u8>, Vec<u8>)>, want: &Vec<(Vec<u8>, Vec<u8>)>) -> bool {
    let mut i: usize = 0;
    while i < want.len()
        decreases want@.len() - i,
    {
        let mut found = false;
        let mut j: usize = 0;
        while j < row.len()
            invariant
                i < want@.len(),
            decreases row@.len() - j,
        {
            if bytes_eq(row[j].0.as_slice(), want[i].0.as_slice()) && bytes_eq(
                row[j].1.as_slice(),
                want[i].1.as_slice(),
            ) {
                found = true;
            }
            j = j + 1;
        }
        if !found {
            return false;
        }
        i = i + 1;
    }
    true
}

/// The decimal digits of `n`.
fn dec_u64(n: u64) -> Vec<u8> {
    let mut digits: Vec<u8> = Vec::new();
    if n == 0 {
        digits.push(48);
        return digits;
    }
    let mut m = n;
    while m > 0
        decreases m,
    {
        let d: u8 = (m % 10) as u8;
        digits.push(d + 48);
        m = m / 10;
    }
    let mut out: Vec<u8> = Vec::new();
    let mut i: usize = digits.len();
    while i > 0
        invariant
            i <= digits@.len(),
        decreases i,
    {
        i = i - 1;
        out.push(digits[i]);
    }
    out
}

/// `{"key":N}` with a numeric value, as the counting operations answer.
fn render_count(key: &str, n: u64) -> Vec<u8> {
    let mut out: Vec<u8> = Vec::new();
    out.extend_from_slice("{\"".as_bytes());
    out.extend_from_slice(key.as_bytes());
    out.extend_from_slice("\":".as_bytes());
    let digits = dec_u64(n);
    out.extend_from_slice(digits.as_slice());
    out.extend_from_slice("}".as_bytes());
    out
}

/// One row as a JSON object in stored column order. Values are spliced in
/// verbatim: this model host does not escape its strings.
fn render_row(row: &Vec<(Vec<u8>, Vec<u8>)>) -> Vec<u8> {
    let mut out: Vec<u8> = Vec::new();
    out.extend_from_slice("{".as_bytes());
    let mut i: usize = 0;
    while i < row.len()
        decreases row@.len() - i,
    {
        if i > 0 {
            out.extend_from_slice(",".as_bytes());
        }
        out.extend_from_slice("\"".as_bytes());
        out.extend_from_slice(row[i].0.as_slice());
        out.extend_from_slice("\":\"".as_bytes());
        out.extend_from_slice(row[i].1.as_slice());
        out.extend_from_slice("\"".as_bytes());
        i = i + 1;
    }
    out.extend_from_slice("}".as_bytes());
    out
}

/// The matching rows as a JSON array, in stored order.
fn render_rows(rows: &Vec<Vec<(Vec<u8>, Vec<u8>)>>, want: &Vec<(Vec<u8>, Vec<u8>)>) -> Vec<u8> {
    let mut out: Vec<u8> = Vec::new();
    out.extend_from_slice("[".as_bytes());
    let mut n: usize = 0;
    let mut i: usize = 0;
    while i < rows.len()
        decreases rows@.len() - i,
    {
        if row_matches(&rows[i], want) {
            if n > 0 {
                out.extend_from_slice(",".as_bytes());
            }
            let rendered = render_row(&rows[i]);
            out.extend_from_slice(rendered.as_slice());
            if n < usize::MAX {
                n = n + 1;
            }
        }
        i = i + 1;
    }
    out.extend_from_slice("]".as_bytes());
    out
}

/// The host state an embedding would keep, laid out in plain lists.
///
/// The fields are public: a test sets the stage by writing them (or going
/// through the guest's own capability calls) and reads the records back
/// out; nothing in the contract depends on hiding them.
pub struct MemHost {
    /// Result bytes prepared for the next copy call.
    pub pending: Vec<u8>,
    /// Cache entries, oldest first; later entries shadow earlier ones.
    pub cache_entries: Vec<(Vec<u8>, Vec<u8>)>,
    /// Request fields: (field-type code, key, value).
    pub field_entries: Vec<(i32, Vec<u8>, Vec<u8>)>,
    /// Static files: (name, contents).
    pub file_entries: Vec<(Vec<u8>, Vec<u8>)>,
    /// Response headers in call order.
    pub header_log: Vec<(Vec<u8>, Vec<u8>)>,
    /// Log lines in call order: (level code, message).
    pub log_lines: Vec<(i32, Vec<u8>)>,
    /// Arguments staged for the next database operation.
    pub staged: Vec<(Vec<u8>, Vec<u8>)>,
    /// Database operations in call order: (mode code, name, staged args).
    pub exec_log: Vec<(i32, Vec<u8>, Vec<(Vec<u8>, Vec<u8>)>)>,
    /// HTTP requests in call order: (method code, url, body).
    pub fetch_log: Vec<(i32, Vec<u8>, Vec<u8>)>,
    /// GraphQL queries in call order: (endpoint, query).
    pub query_log: Vec<(Vec<u8>, Vec<u8>)>,
    /// The delivered outcome of the current invocation, if any.
    pub delivered: Option<Result<Vec<u8>, (i32, Vec<u8>)>>,
    /// The database: each row is a list of (column, value) pairs.
    pub rows: Vec<Vec<(Vec<u8>, Vec<u8>)>>,
    /// How many upcoming fallible calls fail, for drilling error paths.
    pub failures_left: u32,
    /// The message scripted failures carry; empty (or oversized) means
    /// the reserved unknown-error answer.
    pub error_bytes: Vec<u8>,
}

impl MemHost {
    /// A host with empty stores and no scripted failures.
    pub fn new() -> (h: MemHost)
        ensures
            h.pending() == Seq::<u8>::empty(),
            h.cache() == Map::<Seq<u8>, Seq<u8>>::empty(),
            h.fields() == Map::<(int, Seq<u8>), Seq<u8>>::empty(),
            h.files() == Map::<Seq<u8>, Seq<u8>>::empty(),
            h.headers() == Seq::<(Seq<u8>, Seq<u8>)>::empty(),
            h.log() == Seq::<(int, Seq<u8>)>::empty(),
            h.vars() == Seq::<(Seq<u8>, Seq<u8>)>::empty(),
            h.execs() == Seq::<(int, Seq<u8>, Seq<(Seq<u8>, Seq<u8>)>)>::empty(),
            h.fetches() == Seq::<(int, Seq<u8>, Seq<u8>)>::empty(),
            h.queries() == Seq::<(Seq<u8>, Seq<u8>)>::empty(),
            h.sent() is None,
    {
        let h = MemHost {
            pending: Vec::new(),
            cache_entries: Vec::new(),
            field_entries: Vec::new(),
            file_entries: Vec::new(),
            header_log: Vec::new(),
            log_lines: Vec::new(),
            staged: Vec::new(),
            exec_log: Vec::new(),
            fetch_log: Vec::new(),
            query_log: Vec::new(),
            delivered: None,
            rows: Vec::new(),
            failures_left: 0,
            error_bytes: Vec::new(),
        };
        proof {
            assert(h.cache() =~= Map::<Seq<u8>, Seq<u8>>::empty());
            assert(h.fields() =~= Map::<(int, Seq<u8>), Seq<u8>>::empty());
            assert(h.files() =~= Map::<Seq<u8>, Seq<u8>>::empty());
            assert(h.headers() =~= Seq::<(Seq<u8>, Seq<u8>)>::empty());
            assert(h.log() =~= Seq::<(int, Seq<u8>)>::empty());
            assert(h.vars() =~= Seq::<(Seq<u8>, Seq<u8>)>::empty());
            assert(h.execs() =~= Seq::<(int, Seq<u8>, Seq<(Seq<u8>, Seq<u8>)>)>::empty());
            assert(h.fetches() =~= Seq::<(int, Seq<u8>, Seq<u8>)>::empty());
            assert(h.queries() =~= Seq::<(Seq<u8>, Seq<u8>)>::empty());
        }
        h
    }

    /// Pre-load one request field, as the embedding does before an
    /// invocation.
    pub fn load_field(&mut self, field_type: i32, key: &[u8], value: &[u8])
        ensures
            final(self).fields() == old(self).fields().insert(
                (field_type as int, key@),
                value@,
            ),
            final(self).pending() == old(self).pending(),
            final(self).cache() == old(self).cache(),
            final(self).files() == old(self).files(),
            final(self).headers() == old(self).headers(),
            final(self).log() == old(self).log(),
            final(self).vars() == old(self).vars(),
            final(self).execs() == old(self).execs(),
            final(self).fetches() == old(self).fetches(),
            final(self).queries() == old(self).queries(),
            final(self).sent() == old(self).sent(),
    {
        let ghost pre = field_entries_bytes(self.field_entries@);
        self.field_entries.push((field_type, slice_to_vec(key), slice_to_vec(value)));
        proof {
            assert(field_entries_bytes(self.field_entries@).drop_last() =~= pre);
            assert(self.fields() =~= old(self).fields().insert((field_type as int, key@), value@));
        }
    }

    /// Pre-load one static file.
    pub fn load_file(&mut self, name: &[u8], contents: &[u8])
        ensures
            final(self).files() == old(self).files().insert(name@, contents@),
            final(self).pending() == old(self).pending(),
            final(self).cache() == old(self).cache(),
            final(self).fields() == old(self).fields(),
            final(self).headers() == old(self).headers(),
            final(self).log() == old(self).log(),
            final(self).vars() == old(self).vars(),
            final(self).execs() == old(self).execs(),
            final(self).fetches() == old(self).fetches(),
            final(self).queries() == old(self).queries(),
            final(self).sent() == old(self).sent(),
    {
        let ghost pre = entries_bytes(self.file_entries@);
        self.file_entries.push((slice_to_vec(name), slice_to_vec(contents)));
        proof {
            assert(entries_bytes(self.file_entries@).drop_last() =~= pre);
            assert(self.files() =~= old(self).files().insert(name@, contents@));
        }
    }

    /// Consume one scripted failure, if any is left.
    fn take_failure(&mut self) -> (failed: bool)
        ensures
            final(self).pending() == old(self).pending(),
            final(self).cache() == old(self).cache(),
            final(self).fields() == old(self).fields(),
            final(self).files() == old(self).files(),
            final(self).headers() == old(self).headers(),
            final(self).log() == old(self).log(),
            final(self).vars() == old(self).vars(),
            final(self).execs() == old(self).execs(),
            final(self).fetches() == old(self).fetches(),
            final(self).queries() == old(self).queries(),
            final(self).sent() == old(self).sent(),
    {
        if self.failures_left > 0 {
            self.failures_left = self.failures_left - 1;
            true
        } else {
            false
        }
    }

    /// The size a scripted failure answers with: the scripted message's
    /// negated length, or the reserved `-1` when there is none (or it
    /// cannot ride the wire).
    fn fail_size(&mut self) -> (s: i32)
        ensures
            s < 0,
            s > i32::MIN,
            s != -1 ==> final(self).pending().len() == abs_size(s as int),
            final(self).cache() == old(self).cache(),
            final(self).fields() == old(self).fields(),
            final(self).files() == old(self).files(),
            final(self).headers() == old(self).headers(),
            final(self).log() == old(self).log(),
            final(self).vars() == old(self).vars(),
            final(self).execs() == old(self).execs(),
            final(self).fetches() == old(self).fetches(),
            final(self).queries() == old(self).queries(),
            final(self).sent() == old(self).sent(),
    {
        let n = self.error_bytes.len();
        if n == 0 || n >= (i32::MAX as usize) {
            -1
        } else {
            self.pending = slice_to_vec(self.error_bytes.as_slice());
            -(n as i32)
        }
    }

    /// Prepare `resp` for retrieval and answer its length, or the unknown
    /// error if it cannot ride the wire.
    fn offer(&mut self, resp: Vec<u8>) -> (s: i32)
        ensures
            s > i32::MIN,
            s != -1 ==> final(self).pending().len() == abs_size(s as int),
            resp@.len() <= i32::MAX ==> s >= 0,
            s >= 0 ==> final(self).pending() == resp@,
            final(self).cache() == old(self).cache(),
            final(self).fields() == old(self).fields(),
            final(self).files() == old(self).files(),
            final(self).headers() == old(self).headers(),
            final(self).log() == old(self).log(),
            final(self).vars() == old(self).vars(),
            final(self).execs() == old(self).execs(),
            final(self).fetches() == old(self).fetches(),
            final(self).queries() == old(self).queries(),
            final(self).sent() == old(self).sent(),
    {
        if resp.len() > (i32::MAX as usize) {
            -1
        } else {
            let s = resp.len() as i32;
            self.pending = resp;
            s
        }
    }
}

impl HostRuntime for MemHost {
    open spec fn pending(&self) -> Seq<u8> {
        self.pending@
    }

    open spec fn cache(&self) -> Map<Seq<u8>, Seq<u8>> {
        kv_map(entries_bytes(self.cache_entries@))
    }

    open spec fn fields(&self) -> Map<(int, Seq<u8>), Seq<u8>> {
        kv_map(field_entries_bytes(self.field_entries@))
    }

    open spec fn files(&self) -> Map<Seq<u8>, Seq<u8>> {
        kv_map(entries_bytes(self.file_entries@))
    }

    open spec fn headers(&self) -> Seq<(Seq<u8>, Seq<u8>)> {
        entries_bytes(self.header_log@)
    }

    open spec fn log(&self) -> Seq<(int, Seq<u8>)> {
        self.log_lines@.map_values(|e: (i32, Vec<u8>)| (e.0 as int, e.1@))
    }

    open spec fn vars(&self) -> Seq<(Seq<u8>, Seq<u8>)> {
        entries_bytes(self.staged@)
    }

    open spec fn execs(&self) -> Seq<(int, Seq<u8>, Seq<(Seq<u8>, Seq<u8>)>)> {
        self.exec_log@.map_values(
            |e: (i32, Vec<u8>, Vec<(Vec<u8>, Vec<u8>)>)| (e.0 as int, e.1@, entries_bytes(e.2@)),
        )
    }

    open spec fn fetches(&self) -> Seq<(int, Seq<u8>, Seq<u8>)> {
        self.fetch_log@.map_values(|e: (i32, Vec<u8>, Vec<u8>)| (e.0 as int, e.1@, e.2@))
    }

    open spec fn queries(&self) -> Seq<(Seq<u8>, Seq<u8>)> {
        entries_bytes(self.query_log@)
    }

    open spec fn sent(&self) -> Option<Result<Seq<u8>, (int, Seq<u8>)>> {
        match self.delivered {
            None => None,
            Some(Ok(v)) => Some(Result::<Seq<u8>, (int, Seq<u8>)>::Ok(v@)),
            Some(Err((c, m))) => Some(Result::<Seq<u8>, (int, Seq<u8>)>::Err((c as int, m@))),
        }
    }

    fn get_ffi_result(&mut self, arena: &mut Arena, h: usize, ident: i32) -> (status: i32) {
        if self.take_failure() {
            return 1;
        }
        let data = slice_to_vec(self.pending.as_slice());
        arena.write(h, data);
        0
    }

    fn add_ffi_var(&mut self, name: &[u8], value: &[u8], ident: i32) -> (status: i32) {
        if self.take_failure() {
            return 1;
        }
        let ghost pre = entries_bytes(self.staged@);
        self.staged.push((slice_to_vec(name), slice_to_vec(value)));
        proof {
            assert(entries_bytes(self.staged@) =~= pre.push((name@, value@)));
        }
        0
    }

    fn fetch_url(&mut self, method: i32, url: &[u8], body: &[u8], ident: i32) -> (s: i32) {
        let ghost pre = self.fetches();
        self.fetch_log.push((method, slice_to_vec(url), slice_to_vec(body)));
        proof {
            assert(self.fetches() =~= pre.push((method as int, url@, body@)));
        }
        if self.take_failure() {
            return self.fail_size();
        }
        let resp = slice_to_vec(url);
        self.offer(resp)
    }

    fn cache_set(&mut self, key: &[u8], value: &[u8], ttl: i32, ident: i32) -> (status: i32) {
        if self.take_failure() {
            return 1;
        }
        let ghost pre = entries_bytes(self.cache_entries@);
        self.cache_entries.push((slice_to_vec(key), slice_to_vec(value)));
        proof {
            assert(entries_bytes(self.cache_entries@).drop_last() =~= pre);
            assert(self.cache() =~= old(self).cache().insert(key@, value@));
        }
        0
    }

    fn cache_get(&mut self, key: &[u8], ident: i32) -> (s: i32) {
        if self.take_failure() {
            return self.fail_size();
        }
        let resp = match kv_lookup(&self.cache_entries, key) {
            Some(v) => v,
            None => Vec::new(),
        };
        self.offer(resp)
    }

    fn db_exec(&mut self, query_type: i32, name: &[u8], ident: i32) -> (s: i32) {
        let mut staged_now: Vec<(Vec<u8>, Vec<u8>)> = Vec::new();
        core::mem::swap(&mut staged_now, &mut self.staged);
        let ghost pre_execs = self.execs();
        let record = copy_entries(&staged_now);
        self.exec_log.push((query_type, slice_to_vec(name), record));
        proof {
            assert(self.vars() =~= Seq::<(Seq<u8>, Seq<u8>)>::empty());
            assert(self.execs() =~= pre_execs.push((query_type as int, name@, old(self).vars())));
        }
        if self.take_failure() {
            return self.fail_size();
        }
        let resp: Vec<u8> = if query_type == 0 {
            self.rows.push(staged_now);
            render_count("lastInsertID", self.rows.len() as u64)
        } else if query_type == 1 {
            render_rows(&self.rows, &staged_now)
        } else if query_type == 2 {
            let mut n: u64 = 0;
            let mut i: usize = 0;
            while i < self.rows.len()
                invariant
                    n <= i,
                decreases self.rows@.len() - i,
            {
                if row_matches(&self.rows[i], &staged_now) {
                    n = n + 1;
                }
                i = i + 1;
            }
            render_count("rowsAffected", n)
        } else if query_type == 3 {
            let mut kept: Vec<Vec<(Vec<u8>, Vec<u8>)>> = Vec::new();
            let mut removed: u64 = 0;
            let mut tmp: Vec<Vec<(Vec<u8>, Vec<u8>)>> = Vec::new();
            core::mem::swap(&mut tmp, &mut self.rows);
            let mut i: usize = 0;
            while i < tmp.len()
                invariant
                    removed <= i,
                decreases tmp@.len() - i,
            {
                if row_matches(&tmp[i], &staged_now) {
                    removed = removed + 1;
                } else {
                    kept.push(copy_entries(&tmp[i]));
                }
                i = i + 1;
            }
            self.rows = kept;
            render_count("rowsAffected", removed)
        } else {
            return -1;
        };
        self.offer(resp)
    }

    fn get_static_file(&mut self, name: &[u8], ident: i32) -> (s: i32) {
        if self.take_failure() {
            return self.fail_size();
        }
        match kv_lookup(&self.file_entries, name) {
            Some(v) => self.offer(v),
            None => -1,
        }
    }

    fn graphql_query(&mut self, endpoint: &[u8], query: &[u8], ident: i32) -> (s: i32) {
        let ghost pre = self.queries();
        self.query_log.push((slice_to_vec(endpoint), slice_to_vec(query)));
        proof {
            assert(self.queries() =~= pre.push((endpoint@, query@)));
        }
        if self.take_failure() {
            return self.fail_size();
        }
        let resp = slice_to_vec(query);
        self.offer(resp)
    }

    fn request_get_field(&mut self, field_type: i32, key: &[u8], ident: i32) -> (s: i32) {
        if self.take_failure() {
            return self.fail_size();
        }
        match field_lookup(&self.field_entries, field_type, key) {
            Some(v) => self.offer(v),
            None => -1,
        }
    }

    fn request_set_field(&mut self, field_type: i32, key: &[u8], value: &[u8], ident: i32) -> (s:
        i32) {
        if self.take_failure() {
            return self.fail_size();
        }
        let ghost pre = field_entries_bytes(self.field_entries@);
        self.field_entries.push((field_type, slice_to_vec(key), slice_to_vec(value)));
        proof {
            assert(field_entries_bytes(self.field_entries@).drop_last() =~= pre);
            assert(self.fields() =~= old(self).fields().insert((field_type as int, key@), value@));
        }
        let empty: Vec<u8> = Vec::new();
        self.offer(empty)
    }

    fn resp_set_header(&mut self, key: &[u8], value: &[u8], ident: i32) {
        let ghost pre = self.headers();
        self.header_log.push((slice_to_vec(key), slice_to_vec(value)));
        proof {
            assert(self.headers() =~= pre.push((key@, value@)));
        }
    }

    fn log_msg(&mut self, msg: &[u8], level: i32, ident: i32) {
        let ghost pre = self.log();
        self.log_lines.push((level, slice_to_vec(msg)));
        proof {
            assert(self.log() =~= pre.push((level as int, msg@)));
        }
    }

    fn return_result(&mut self, data: &[u8], ident: i32) {
        self.delivered = Some(Ok(slice_to_vec(data)));
    }

    fn return_error(&mut self, code: i32, msg: &[u8], ident: i32) {
        self.delivered = Some(Err((code, slice_to_vec(msg))));
    }
}

} // verus!
