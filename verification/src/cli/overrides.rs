//! What the options of the command line override: each option its own setting.
use vstd::prelude::*;

use crate::cli::{put, serve_overrides, Serve};
use crate::config::{format_name, level_name};
use crate::text::{bool_text, decimal};

verus! {

/// Whether `m` holds `value` under `key` where there is a value, and nothing under `key`
/// where there is none.
pub open spec fn holds_entry(m: Map<Seq<char>, Seq<char>>, key: Seq<char>, value: Option<Seq<char>>) -> bool {
    match value {
        Some(v) => m.contains_key(key) && m[key] == v,
        None => !m.contains_key(key),
    }
}

/// The dotted key of the setting that the option at position `i` overrides.
pub open spec fn serve_key(i: int) -> Seq<char> {
    if i == 0 {
        "name"@
    } else if i == 1 {
        "debug"@
    } else if i == 2 {
        "database.url"@
    } else if i == 3 {
        "database.max_connections"@
    } else if i == 4 {
        "database.connection_timeout"@
    } else if i == 5 {
        "database.idle_timeout"@
    } else if i == 6 {
        "database.thread_pool_size"@
    } else if i == 7 {
        "log.level"@
    } else if i == 8 {
        "log.format"@
    } else if i == 9 {
        "jwt.pub_key"@
    } else if i == 10 {
        "jwt.priv_key"@
    } else if i == 11 {
        "jwt.lifetime"@
    } else if i == 12 {
        "server.port"@
    } else if i == 13 {
        "server.workers"@
    } else if i == 14 {
        "session.secret"@
    } else if i == 15 {
        "session.secure"@
    } else {
        "session.lifetime"@
    }
}

/// The text that the option at position `i` gives, if it is given.
pub open spec fn serve_value(s: Serve, i: int) -> Option<Seq<char>> {
    if i == 0 {
        match s.name { Some(t) => Some(t@), None => None }
    } else if i == 1 {
        match s.debug { Some(b) => Some(bool_text(b)), None => None }
    } else if i == 2 {
        match s.db_url { Some(t) => Some(t@), None => None }
    } else if i == 3 {
        match s.db_max_conns { Some(n) => Some(decimal(n as nat)), None => None }
    } else if i == 4 {
        match s.db_conn_timeout { Some(n) => Some(decimal(n as nat)), None => None }
    } else if i == 5 {
        match s.db_idle_timeout { Some(n) => Some(decimal(n as nat)), None => None }
    } else if i == 6 {
        match s.db_thread_size { Some(n) => Some(decimal(n as nat)), None => None }
    } else if i == 7 {
        match s.log_level { Some(l) => Some(level_name(l)), None => None }
    } else if i == 8 {
        match s.log_format { Some(x) => Some(format_name(x)), None => None }
    } else if i == 9 {
        match s.jwt_pub_key { Some(t) => Some(t@), None => None }
    } else if i == 10 {
        match s.jwt_priv_key { Some(t) => Some(t@), None => None }
    } else if i == 11 {
        match s.jwt_lifetime { Some(n) => Some(decimal(n as nat)), None => None }
    } else if i == 12 {
        match s.server_port { Some(n) => Some(decimal(n as nat)), None => None }
    } else if i == 13 {
        match s.server_workers { Some(n) => Some(decimal(n as nat)), None => None }
    } else if i == 14 {
        match s.session_secret { Some(t) => Some(t@), None => None }
    } else if i == 15 {
        match s.session_secure { Some(b) => Some(bool_text(b)), None => None }
    } else {
        match s.session_lifetime { Some(n) => Some(decimal(n as nat)), None => None }
    }
}

/// The overrides that the first `n` options make, put in order.
pub open spec fn serve_put_first(s: Serve, n: nat) -> Map<Seq<char>, Seq<char>>
    decreases n,
{
    if n == 0 {
        Map::<Seq<char>, Seq<char>>::empty()
    } else {
        put(serve_put_first(s, (n - 1) as nat), serve_key(n - 1), serve_value(s, n - 1))
    }
}

/// The texts of the keys.
proof fn lemma_serve_key_texts()
    ensures
        serve_key(0) == seq!['n', 'a', 'm', 'e'],
        serve_key(1) == seq!['d', 'e', 'b', 'u', 'g'],
        serve_key(2) == seq!['d', 'a', 't', 'a', 'b', 'a', 's', 'e', '.', 'u', 'r', 'l'],
        serve_key(3) == seq!['d', 'a', 't', 'a', 'b', 'a', 's', 'e', '.', 'm', 'a', 'x', '_', 'c', 'o', 'n', 'n', 'e', 'c', 't', 'i', 'o', 'n', 's'],
        serve_key(4) == seq!['d', 'a', 't', 'a', 'b', 'a', 's', 'e', '.', 'c', 'o', 'n', 'n', 'e', 'c', 't', 'i', 'o', 'n', '_', 't', 'i', 'm', 'e', 'o', 'u', 't'],
        serve_key(5) == seq!['d', 'a', 't', 'a', 'b', 'a', 's', 'e', '.', 'i', 'd', 'l', 'e', '_', 't', 'i', 'm', 'e', 'o', 'u', 't'],
        serve_key(6) == seq!['d', 'a', 't', 'a', 'b', 'a', 's', 'e', '.', 't', 'h', 'r', 'e', 'a', 'd', '_', 'p', 'o', 'o', 'l', '_', 's', 'i', 'z', 'e'],
        serve_key(7) == seq!['l', 'o', 'g', '.', 'l', 'e', 'v', 'e', 'l'],
        serve_key(8) == seq!['l', 'o', 'g', '.', 'f', 'o', 'r', 'm', 'a', 't'],
        serve_key(9) == seq!['j', 'w', 't', '.', 'p', 'u', 'b', '_', 'k', 'e', 'y'],
        serve_key(10) == seq!['j', 'w', 't', '.', 'p', 'r', 'i', 'v', '_', 'k', 'e', 'y'],
        serve_key(11) == seq!['j', 'w', 't', '.', 'l', 'i', 'f', 'e', 't', 'i', 'm', 'e'],
        serve_key(12) == seq!['s', 'e', 'r', 'v', 'e', 'r', '.', 'p', 'o', 'r', 't'],
        serve_key(13) == seq!['s', 'e', 'r', 'v', 'e', 'r', '.', 'w', 'o', 'r', 'k', 'e', 'r', 's'],
        serve_key(14) == seq!['s', 'e', 's', 's', 'i', 'o', 'n', '.', 's', 'e', 'c', 'r', 'e', 't'],
        serve_key(15) == seq!['s', 'e', 's', 's', 'i', 'o', 'n', '.', 's', 'e', 'c', 'u', 'r', 'e'],
        serve_key(16) == seq!['s', 'e', 's', 's', 'i', 'o', 'n', '.', 'l', 'i', 'f', 'e', 't', 'i', 'm', 'e'],
{
    reveal_strlit("name");
    assert("name"@ =~= seq!['n', 'a', 'm', 'e']);
    reveal_strlit("debug");
    assert("debug"@ =~= seq!['d', 'e', 'b', 'u', 'g']);
    reveal_strlit("database.url");
    assert("database.url"@ =~= seq!['d', 'a', 't', 'a', 'b', 'a', 's', 'e', '.', 'u', 'r', 'l']);
    reveal_strlit("database.max_connections");
    assert("database.max_connections"@ =~= seq!['d', 'a', 't', 'a', 'b', 'a', 's', 'e', '.', 'm', 'a', 'x', '_', 'c', 'o', 'n', 'n', 'e', 'c', 't', 'i', 'o', 'n', 's']);
    reveal_strlit("database.connection_timeout");
    assert("database.connection_timeout"@ =~= seq!['d', 'a', 't', 'a', 'b', 'a', 's', 'e', '.', 'c', 'o', 'n', 'n', 'e', 'c', 't', 'i', 'o', 'n', '_', 't', 'i', 'm', 'e', 'o', 'u', 't']);
    reveal_strlit("database.idle_timeout");
    assert("database.idle_timeout"@ =~= seq!['d', 'a', 't', 'a', 'b', 'a', 's', 'e', '.', 'i', 'd', 'l', 'e', '_', 't', 'i', 'm', 'e', 'o', 'u', 't']);
    reveal_strlit("database.thread_pool_size");
    assert("database.thread_pool_size"@ =~= seq!['d', 'a', 't', 'a', 'b', 'a', 's', 'e', '.', 't', 'h', 'r', 'e', 'a', 'd', '_', 'p', 'o', 'o', 'l', '_', 's', 'i', 'z', 'e']);
    reveal_strlit("log.level");
    assert("log.level"@ =~= seq!['l', 'o', 'g', '.', 'l', 'e', 'v', 'e', 'l']);
    reveal_strlit("log.format");
    assert("log.format"@ =~= seq!['l', 'o', 'g', '.', 'f', 'o', 'r', 'm', 'a', 't']);
    reveal_strlit("jwt.pub_key");
    assert("jwt.pub_key"@ =~= seq!['j', 'w', 't', '.', 'p', 'u', 'b', '_', 'k', 'e', 'y']);
    reveal_strlit("jwt.priv_key");
    assert("jwt.priv_key"@ =~= seq!['j', 'w', 't', '.', 'p', 'r', 'i', 'v', '_', 'k', 'e', 'y']);
    reveal_strlit("jwt.lifetime");
    assert("jwt.lifetime"@ =~= seq!['j', 'w', 't', '.', 'l', 'i', 'f', 'e', 't', 'i', 'm', 'e']);
    reveal_strlit("server.port");
    assert("server.port"@ =~= seq!['s', 'e', 'r', 'v', 'e', 'r', '.', 'p', 'o', 'r', 't']);
    reveal_strlit("server.workers");
    assert("server.workers"@ =~= seq!['s', 'e', 'r', 'v', 'e', 'r', '.', 'w', 'o', 'r', 'k', 'e', 'r', 's']);
    reveal_strlit("session.secret");
    assert("session.secret"@ =~= seq!['s', 'e', 's', 's', 'i', 'o', 'n', '.', 's', 'e', 'c', 'r', 'e', 't']);
    reveal_strlit("session.secure");
    assert("session.secure"@ =~= seq!['s', 'e', 's', 's', 'i', 'o', 'n', '.', 's', 'e', 'c', 'u', 'r', 'e']);
    reveal_strlit("session.lifetime");
    assert("session.lifetime"@ =~= seq!['s', 'e', 's', 's', 'i', 'o', 'n', '.', 'l', 'i', 'f', 'e', 't', 'i', 'm', 'e']);
}

/// The keys of the options are distinct.
proof fn lemma_serve_keys_distinct()
    ensures
        forall|i: int, j: int|
            0 <= i < 17 && 0 <= j < 17 && i != j ==> #[trigger] serve_key(i) != #[trigger] serve_key(j),
{
    lemma_serve_key_texts();
    assert forall|i: int, j: int| 0 <= i < 17 && 0 <= j < 17 && i != j implies #[trigger] serve_key(i)
        != #[trigger] serve_key(j) by {
        let a = serve_key(i);
        let b = serve_key(j);
        if a.len() == b.len() {
            let w: int = if a[0] != b[0] {
                0
            } else if a[2] != b[2] {
                2
            } else if a[4] != b[4] {
                4
            } else {
                11
            };
            assert(a[w] != b[w]);
        }
    }
}

/// Putting the options' texts under their distinct keys: each key holds its option's
/// text, or nothing where the option is not given, and no other key is set.
proof fn lemma_serve_put_first(s: Serve, n: nat)
    requires
        n <= 17,
    ensures
        forall|i: int| 0 <= i < n ==> holds_entry(serve_put_first(s, n), #[trigger] serve_key(i), serve_value(s, i)),
        forall|k: Seq<char>| #[trigger] serve_put_first(s, n).contains_key(k) ==> exists|i: int|
            0 <= i < n && serve_key(i) == k,
    decreases n,
{
    if n > 0 {
        lemma_serve_keys_distinct();
        lemma_serve_put_first(s, (n - 1) as nat);
        let m = serve_put_first(s, (n - 1) as nat);
        assert forall|i: int| 0 <= i < n implies holds_entry(serve_put_first(s, n), #[trigger] serve_key(i), serve_value(s, i)) by {
            if i < n - 1 {
                assert(serve_key(i) != serve_key(n - 1));
                assert(holds_entry(m, serve_key(i), serve_value(s, i)));
            }
        }
        assert forall|k: Seq<char>| #[trigger] serve_put_first(s, n).contains_key(k) implies exists|i: int|
            0 <= i < n && serve_key(i) == k by {
            if k != serve_key(n - 1) {
                assert(m.contains_key(k));
                let i = choose|i: int| 0 <= i < n - 1 && serve_key(i) == k;
                assert(0 <= i < n && serve_key(i) == k);
            } else {
                assert(serve_key(n - 1) == k);
            }
        }
    }
}

proof fn lemma_serve_overrides_put_first(s: Serve)
    ensures
        serve_overrides(s) == serve_put_first(s, 17),
{
    reveal_with_fuel(serve_put_first, 18);
}

/// Each option given on the command line overrides its own setting: its text, as the
/// matching `Config` setter writes it, stands under that setting's dotted key; an option
/// not given leaves its key out; and no other key is set.
pub proof fn law_serve_overrides(s: Serve)
    ensures
        holds_entry(serve_overrides(s), seq!['n', 'a', 'm', 'e'], match s.name { Some(t) => Some(t@), None => None }),
        holds_entry(serve_overrides(s), seq!['d', 'e', 'b', 'u', 'g'], match s.debug { Some(b) => Some(bool_text(b)), None => None }),
        holds_entry(serve_overrides(s), seq!['d', 'a', 't', 'a', 'b', 'a', 's', 'e', '.', 'u', 'r', 'l'], match s.db_url { Some(t) => Some(t@), None => None }),
        holds_entry(serve_overrides(s), seq!['d', 'a', 't', 'a', 'b', 'a', 's', 'e', '.', 'm', 'a', 'x', '_', 'c', 'o', 'n', 'n', 'e', 'c', 't', 'i', 'o', 'n', 's'], match s.db_max_conns { Some(n) => Some(decimal(n as nat)), None => None }),
        holds_entry(serve_overrides(s), seq!['d', 'a', 't', 'a', 'b', 'a', 's', 'e', '.', 'c', 'o', 'n', 'n', 'e', 'c', 't', 'i', 'o', 'n', '_', 't', 'i', 'm', 'e', 'o', 'u', 't'], match s.db_conn_timeout { Some(n) => Some(decimal(n as nat)), None => None }),
        holds_entry(serve_overrides(s), seq!['d', 'a', 't', 'a', 'b', 'a', 's', 'e', '.', 'i', 'd', 'l', 'e', '_', 't', 'i', 'm', 'e', 'o', 'u', 't'], match s.db_idle_timeout { Some(n) => Some(decimal(n as nat)), None => None }),
        holds_entry(serve_overrides(s), seq!['d', 'a', 't', 'a', 'b', 'a', 's', 'e', '.', 't', 'h', 'r', 'e', 'a', 'd', '_', 'p', 'o', 'o', 'l', '_', 's', 'i', 'z', 'e'], match s.db_thread_size { Some(n) => Some(decimal(n as nat)), None => None }),
        holds_entry(serve_overrides(s), seq!['l', 'o', 'g', '.', 'l', 'e', 'v', 'e', 'l'], match s.log_level { Some(l) => Some(level_name(l)), None => None }),
        holds_entry(serve_overrides(s), seq!['l', 'o', 'g', '.', 'f', 'o', 'r', 'm', 'a', 't'], match s.log_format { Some(x) => Some(format_name(x)), None => None }),
        holds_entry(serve_overrides(s), seq!['j', 'w', 't', '.', 'p', 'u', 'b', '_', 'k', 'e', 'y'], match s.jwt_pub_key { Some(t) => Some(t@), None => None }),
        holds_entry(serve_overrides(s), seq!['j', 'w', 't', '.', 'p', 'r', 'i', 'v', '_', 'k', 'e', 'y'], match s.jwt_priv_key { Some(t) => Some(t@), None => None }),
        holds_entry(serve_overrides(s), seq!['j', 'w', 't', '.', 'l', 'i', 'f', 'e', 't', 'i', 'm', 'e'], match s.jwt_lifetime { Some(n) => Some(decimal(n as nat)), None => None }),
        holds_entry(serve_overrides(s), seq!['s', 'e', 'r', 'v', 'e', 'r', '.', 'p', 'o', 'r', 't'], match s.server_port { Some(n) => Some(decimal(n as nat)), None => None }),
        holds_entry(serve_overrides(s), seq!['s', 'e', 'r', 'v', 'e', 'r', '.', 'w', 'o', 'r', 'k', 'e', 'r', 's'], match s.server_workers { Some(n) => Some(decimal(n as nat)), None => None }),
        holds_entry(serve_overrides(s), seq!['s', 'e', 's', 's', 'i', 'o', 'n', '.', 's', 'e', 'c', 'r', 'e', 't'], match s.session_secret { Some(t) => Some(t@), None => None }),
        holds_entry(serve_overrides(s), seq!['s', 'e', 's', 's', 'i', 'o', 'n', '.', 's', 'e', 'c', 'u', 'r', 'e'], match s.session_secure { Some(b) => Some(bool_text(b)), None => None }),
        holds_entry(serve_overrides(s), seq!['s', 'e', 's', 's', 'i', 'o', 'n', '.', 'l', 'i', 'f', 'e', 't', 'i', 'm', 'e'], match s.session_lifetime { Some(n) => Some(decimal(n as nat)), None => None }),
        forall|k: Seq<char>| #[trigger] serve_overrides(s).contains_key(k) ==> exists|i: int| 0 <= i < 17 && serve_key(i) == k,
{
    lemma_serve_key_texts();
    lemma_serve_overrides_put_first(s);
    lemma_serve_put_first(s, 17);
    assert(holds_entry(serve_overrides(s), serve_key(0), serve_value(s, 0)));
    assert(holds_entry(serve_overrides(s), serve_key(1), serve_value(s, 1)));
    assert(holds_entry(serve_overrides(s), serve_key(2), serve_value(s, 2)));
    assert(holds_entry(serve_overrides(s), serve_key(3), serve_value(s, 3)));
    assert(holds_entry(serve_overrides(s), serve_key(4), serve_value(s, 4)));
    assert(holds_entry(serve_overrides(s), serve_key(5), serve_value(s, 5)));
    assert(holds_entry(serve_overrides(s), serve_key(6), serve_value(s, 6)));
    assert(holds_entry(serve_overrides(s), serve_key(7), serve_value(s, 7)));
    assert(holds_entry(serve_overrides(s), serve_key(8), serve_value(s, 8)));
    assert(holds_entry(serve_overrides(s), serve_key(9), serve_value(s, 9)));
    assert(holds_entry(serve_overrides(s), serve_key(10), serve_value(s, 10)));
    assert(holds_entry(serve_overrides(s), serve_key(11), serve_value(s, 11)));
    assert(holds_entry(serve_overrides(s), serve_key(12), serve_value(s, 12)));
    assert(holds_entry(serve_overrides(s), serve_key(13), serve_value(s, 13)));
    assert(holds_entry(serve_overrides(s), serve_key(14), serve_value(s, 14)));
    assert(holds_entry(serve_overrides(s), serve_key(15), serve_value(s, 15)));
    assert(holds_entry(serve_overrides(s), serve_key(16), serve_value(s, 16)));
}

} // verus!
