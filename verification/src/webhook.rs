use vstd::prelude::*;

use crate::text::{has_prefix, owned, starts_with, opt_chars};

verus! {

/// `i` is the position of the first `':'` in `addr`.
pub open spec fn is_first_colon(addr: Seq<char>, i: int) -> bool {
    &&& 0 <= i < addr.len()
    &&& addr[i] == ':'
    &&& forall|j: int| 0 <= j < i ==> addr[j] != ':'
}

/// No character of `s` is a `':'`.
pub open spec fn colon_free(s: Seq<char>) -> bool {
    forall|j: int| 0 <= j < s.len() ==> s[j] != ':'
}

/// The address without its port: everything before the first `':'`,
/// or the whole address when it holds none.
pub open spec fn host_part(addr: Seq<char>) -> Seq<char> {
    if exists|i: int| is_first_colon(addr, i) {
        addr.take(choose|i: int| is_first_colon(addr, i))
    } else {
        addr
    }
}

/// The markdown link to the lookup page of the host of `addr`.
pub open spec fn ip_info_text(addr: Seq<char>) -> Seq<char> {
    let host = host_part(addr);
    "[`"@ + host + "`](<https://ipinfo.io/"@ + host + ">)"@
}

/// Addresses of the local network are never reported.
pub open spec fn is_local(addr: Seq<char>) -> bool {
    has_prefix(addr, "192.168"@)
}

/// The report of a status ping from `address` that asked for `target`,
/// or nothing when the ping went to a local address.
pub open spec fn ping_report(address: Seq<char>, target: Seq<char>) -> Option<Seq<char>> {
    if is_local(target) {
        None
    } else {
        Some("ping: "@ + ip_info_text(address) + " with target "@ + target)
    }
}

/// The report of `user` joining from `address`, or nothing for a local address.
pub open spec fn join_report(address: Seq<char>, user: Seq<char>) -> Option<Seq<char>> {
    if is_local(address) {
        None
    } else {
        Some("("@ + ip_info_text(address) + ") "@ + user + " joined the server"@)
    }
}

/// The report of `user` leaving from `address`.
pub open spec fn leave_report(address: Seq<char>, user: Seq<char>) -> Seq<char> {
    "("@ + ip_info_text(address) + ") "@ + user + " disconnected"@
}

/// Two positions that are both the first colon are the same position.
pub proof fn lemma_first_colon_unique(addr: Seq<char>, i: int, j: int)
    requires
        is_first_colon(addr, i),
        is_first_colon(addr, j),
    ensures
        i == j,
{
}

/// The host part when the first colon stands at `i`.
pub proof fn lemma_host_part_at(addr: Seq<char>, i: int)
    requires
        is_first_colon(addr, i),
    ensures
        host_part(addr) == addr.take(i),
{
    let k = choose|k: int| is_first_colon(addr, k);
    lemma_first_colon_unique(addr, i, k);
}

/// The host part of an address without a colon is the address itself.
pub proof fn lemma_host_part_colon_free(addr: Seq<char>)
    requires
        colon_free(addr),
    ensures
        host_part(addr) == addr,
{
}

/// A colon anywhere in the address means there is a first one.
pub proof fn lemma_first_colon_exists(addr: Seq<char>, k: int)
    requires
        0 <= k < addr.len(),
        addr[k] == ':',
    ensures
        exists|i: int| is_first_colon(addr, i),
    decreases k,
{
    if forall|j: int| 0 <= j < k ==> addr[j] != ':' {
        assert(is_first_colon(addr, k));
    } else {
        let j = choose|j: int| 0 <= j < k && addr[j] == ':';
        lemma_first_colon_exists(addr, j);
    }
}

/// The host part never holds a colon and always begins the address.
pub proof fn lemma_host_part_shape(addr: Seq<char>)
    ensures
        colon_free(host_part(addr)),
        addr.take(host_part(addr).len() as int) == host_part(addr),
        host_part(addr).len() <= addr.len(),
{
    if exists|i: int| is_first_colon(addr, i) {
        let i = choose|i: int| is_first_colon(addr, i);
        assert(addr.take(i).take(i) =~= addr.take(i));
    } else {
        assert(addr.take(addr.len() as int) =~= addr);
        assert forall|j: int| 0 <= j < addr.len() implies addr[j] != ':' by {
            if addr[j] == ':' {
                lemma_first_colon_exists(addr, j);
            }
        }
    }
}

/// The address up to, and without, its first colon.
fn host_of(ip: &str) -> (host: &str)
    ensures
        host@ == host_part(ip@),
{
    let len = ip.unicode_len();
    let mut i: usize = 0;
    while i < len && ip.get_char(i) != ':'
        invariant
            len == ip@.len(),
            i <= len,
            forall|j: int| 0 <= j < i ==> ip@[j] != ':',
        decreases len - i,
    {
        i += 1;
    }
    let host = ip.substring_char(0, i);
    proof {
        if i < len {
            assert(is_first_colon(ip@, i as int));
            lemma_host_part_at(ip@, i as int);
        } else {
            assert(host@ =~= ip@);
            assert(!exists|k: int| is_first_colon(ip@, k));
        }
    }
    host
}

/// The markdown link that points a reader of the report at the lookup page of
/// the host of `ip`; a port after the first `':'` is left out.
pub fn ip_info(ip: &str) -> (info: String)
    ensures
        info@ == ip_info_text(ip@),
{
    let host = host_of(ip);
    let mut info = owned("[`");
    info.append(host);
    info.append("`](<https://ipinfo.io/");
    info.append(host);
    info.append(">)");
    info
}

/// The report of a status ping from `address` to the host name `target`, or
/// `None` when the target is an address of the local network.
pub fn log_mc_ping(address: &str, target: &str) -> (msg: Option<String>)
    ensures
        opt_chars(msg) == ping_report(address@, target@),
{
    if starts_with(target, "192.168") {
        return None;
    }
    let mut msg = owned("ping: ");
    let info = ip_info(address);
    msg.append(info.as_str());
    msg.append(" with target ");
    msg.append(target);
    Some(msg)
}

/// The report of `user` joining from `address` (an address as text), or
/// `None` when the address is one of the local network.
pub fn log_join(address: &str, user: &str) -> (msg: Option<String>)
    ensures
        opt_chars(msg) == join_report(address@, user@),
{
    if starts_with(address, "192.168") {
        return None;
    }
    let mut msg = owned("(");
    let info = ip_info(address);
    msg.append(info.as_str());
    msg.append(") ");
    msg.append(user);
    msg.append(" joined the server");
    Some(msg)
}

/// The report of `user` leaving from `address`; leaving is always reported.
pub fn log_leave(address: &str, user: &str) -> (msg: String)
    ensures
        msg@ == leave_report(address@, user@),
{
    let mut msg = owned("(");
    let info = ip_info(address);
    msg.append(info.as_str());
    msg.append(") ");
    msg.append(user);
    msg.append(" disconnected");
    msg
}

/// A port after the host changes nothing in the link: the link for
/// `host:port` is the link for `host`.
pub proof fn law_ip_info_ignores_port(host: Seq<char>, port: Seq<char>)
    requires
        colon_free(host),
    ensures
        ip_info_text(host + ":"@ + port) == ip_info_text(host),
{
    let addr = host + ":"@ + port;
    assert(":"@.len() == 1 && ":"@[0] == ':') by {
        reveal_strlit(":");
    }
    assert(is_first_colon(addr, host.len() as int));
    lemma_host_part_at(addr, host.len() as int);
    assert(addr.take(host.len() as int) =~= host);
    lemma_host_part_colon_free(host);
}

/// Taking the host part twice is taking it once.
pub proof fn law_host_part_idempotent(addr: Seq<char>)
    ensures
        host_part(host_part(addr)) == host_part(addr),
{
    lemma_host_part_shape(addr);
    lemma_host_part_colon_free(host_part(addr));
}

/// Pings that ask for a host name of the local network are never reported,
/// and every other ping is.
pub proof fn law_local_pings_are_silent(address: Seq<char>, target: Seq<char>)
    ensures
        ping_report(address, target) is None <==> is_local(target),
{
}

/// The link shows the same host in its label and in its address, and that
/// host is the start of the address up to, and without, its first colon (the
/// whole address when it has none).
pub proof fn law_ip_info_shows_host(addr: Seq<char>)
    ensures
        exists|h: Seq<char>|
            {
                &&& ip_info_text(addr) == "[`"@ + h + "`](<https://ipinfo.io/"@ + h + ">)"@
                &&& forall|j: int| 0 <= j < h.len() ==> h[j] != ':'
                &&& h.len() <= addr.len()
                &&& addr.take(h.len() as int) == h
                &&& (h.len() == addr.len() || addr[h.len() as int] == ':')
            },
{
    let h = host_part(addr);
    lemma_host_part_shape(addr);
    if exists|i: int| is_first_colon(addr, i) {
        let i = choose|i: int| is_first_colon(addr, i);
        lemma_host_part_at(addr, i);
        assert(addr[h.len() as int] == ':');
    }
    assert(ip_info_text(addr) == "[`"@ + h + "`](<https://ipinfo.io/"@ + h + ">)"@);
}

/// A reported join names the player and shows the link for its address; a
/// reported ping shows the link for the pinging address and names the target.
pub proof fn law_reports_show_link(address: Seq<char>, target: Seq<char>, user: Seq<char>)
    ensures
        !is_local(address) ==> join_report(address, user) == Some(
            "("@ + ip_info_text(address) + ") "@ + user + " joined the server"@,
        ),
        !is_local(target) ==> ping_report(address, target) == Some(
            "ping: "@ + ip_info_text(address) + " with target "@ + target,
        ),
        is_local(address) ==> join_report(address, user) is None,
{
}

/// Exactly the pings whose target begins with "192.168" go unreported, and
/// exactly the joins from an address beginning with "192.168".
pub proof fn law_local_means_192_168(address: Seq<char>, target: Seq<char>, user: Seq<char>)
    ensures
        ping_report(address, target) is None <==> (target.len() >= 7 && target.take(7)
            == seq!['1', '9', '2', '.', '1', '6', '8']),
        join_report(address, user) is None <==> (address.len() >= 7 && address.take(7)
            == seq!['1', '9', '2', '.', '1', '6', '8']),
{
    reveal_strlit("192.168");
    assert("192.168"@ =~= seq!['1', '9', '2', '.', '1', '6', '8']);
}

} // verus!
