//! Maintenance of the known-hosts store: one certificate-authority trust
//! anchor line, tagged with this client's marker, is kept current. Stale
//! lines with the marker are removed and the current anchor is appended, so
//! repeating the operation never duplicates and a changed anchor replaces the
//! old line.

use crate::lines::{
    keep_lines, lemma_keep_lines_all, lemma_keep_lines_push, lemma_keep_lines_sound,
    lemma_lines_acc_no_newline, lemma_lines_of_unlines, lemma_unlines_append, lines_acc, lines_of,
    unlines,
};
use crate::ssh::{SshCertType, SshCertificateResponse};
use crate::text::{ends_with_str, spec_ends_with, spec_starts_with, starts_with_str};
use vstd::prelude::*;
use vstd::string::*;

verus! {

/// A line written and owned by this client: a certificate-authority entry
/// carrying the client's marker comment.
pub open spec fn is_marker_line(l: Seq<char>) -> bool {
    spec_starts_with(l, "@cert-authority "@) && spec_ends_with(l, " nioca-ssh-ca"@)
}

/// The known-hosts line for a trust anchor: a certificate-authority entry for
/// every host, tagged with the client's marker.
pub open spec fn spec_known_hosts_entry(anchor: Seq<char>) -> Seq<char> {
    "@cert-authority * "@ + anchor + " nioca-ssh-ca"@
}

/// The lines that survive an update: everything not owned by this client.
pub open spec fn known_hosts_kept(ls: Seq<Seq<char>>) -> Seq<Seq<char>> {
    keep_lines(ls, |l: Seq<char>| !is_marker_line(l))
}

/// The store after an update: all foreign lines, in order, each terminated by
/// a newline, followed by the current entry.
pub open spec fn spec_known_hosts_merged(content: Seq<char>, entry: Seq<char>) -> Seq<char> {
    unlines(known_hosts_kept(lines_of(content)).push(entry))
}

/// Whether a line carries this client's marker.
pub fn is_trust_anchor_line(line: &str) -> (r: bool)
    ensures
        r == is_marker_line(line@),
{
    starts_with_str(line, "@cert-authority ") && ends_with_str(line, " nioca-ssh-ca")
}

/// Render the known-hosts entry for a trust anchor.
pub fn known_hosts_entry(anchor: &str) -> (r: String)
    ensures
        r@ == spec_known_hosts_entry(anchor@),
{
    let mut s = String::from_str("@cert-authority * ");
    s.append(anchor);
    s.append(" nioca-ssh-ca");
    s
}

/// Rewrite a known-hosts store: drop every line carrying this client's
/// marker, keep everything else in order, and append `entry`.
pub fn known_hosts_merge(content: &str, entry: &str) -> (r: String)
    ensures
        r@ == spec_known_hosts_merged(content@, entry@),
{
    let len = content.unicode_len();
    let mut out = String::new();
    let ghost mut done: Seq<Seq<char>> = Seq::empty();
    let mut start: usize = 0;
    let mut i: usize = 0;
    proof {
        assert(content@.skip(0) =~= content@);
        assert(content@.subrange(0, 0) =~= Seq::<char>::empty());
    }
    while i < len
        invariant
            len == content@.len(),
            0 <= start as int <= i as int <= len as int,
            forall|k: int| start <= k < i ==> content@[k] != '\n',
            lines_of(content@) == done + lines_acc(
                content@.skip(i as int),
                content@.subrange(start as int, i as int),
            ),
            out@ == unlines(known_hosts_kept(done)),
        decreases len - i,
    {
        let c = content.get_char(i);
        let ghost rem = content@.skip(i as int);
        let ghost cur = content@.subrange(start as int, i as int);
        proof {
            assert(rem.len() > 0);
            assert(rem.first() == content@[i as int]);
            assert(rem.drop_first() =~= content@.skip(i as int + 1));
        }
        if c == '\n' {
            let line = content.substring_char(start, i);
            proof {
                assert(lines_acc(rem, cur) == seq![cur] + lines_acc(
                    content@.skip(i as int + 1),
                    seq![],
                ));
                assert(done + (seq![cur] + lines_acc(content@.skip(i as int + 1), seq![]))
                    =~= done.push(cur) + lines_acc(content@.skip(i as int + 1), seq![]));
            }
            if !is_trust_anchor_line(line) {
                out.append(line);
                proof {
                    reveal_strlit("\n");
                }
                out.append("\n");
                proof {
                    lemma_keep_lines_push(done, cur, |l: Seq<char>| !is_marker_line(l));
                    assert(known_hosts_kept(done).push(cur) =~= known_hosts_kept(done)
                        + seq![cur]);
                    lemma_unlines_append(known_hosts_kept(done), seq![cur]);
                    assert(seq![cur].drop_first() =~= Seq::<Seq<char>>::empty());
                    assert(unlines(Seq::<Seq<char>>::empty()) =~= Seq::<char>::empty());
                    assert(unlines(seq![cur]) =~= cur + seq!['\n']);
                    assert("\n"@ =~= seq!['\n']);
                    assert(out@ =~= unlines(known_hosts_kept(done.push(cur))));
                }
            } else {
                proof {
                    lemma_keep_lines_push(done, cur, |l: Seq<char>| !is_marker_line(l));
                    assert(out@ =~= unlines(known_hosts_kept(done.push(cur))));
                }
            }
            proof {
                done = done.push(cur);
                assert(content@.subrange(i as int + 1, i as int + 1) =~= Seq::<char>::empty());
            }
            i = i + 1;
            start = i;
        } else {
            proof {
                assert(cur.push(c) =~= content@.subrange(start as int, i as int + 1));
                assert(lines_acc(rem, cur) == lines_acc(
                    content@.skip(i as int + 1),
                    content@.subrange(start as int, i as int + 1),
                ));
            }
            i = i + 1;
        }
    }
    let ghost cur = content@.subrange(start as int, len as int);
    proof {
        assert(content@.skip(len as int) =~= Seq::<char>::empty());
    }
    if start < len {
        let line = content.substring_char(start, len);
        proof {
            assert(cur.len() > 0);
            assert(lines_acc(Seq::<char>::empty(), cur) =~= seq![cur]);
            assert(done + seq![cur] =~= done.push(cur));
        }
        if !is_trust_anchor_line(line) {
            out.append(line);
            proof {
                reveal_strlit("\n");
            }
            out.append("\n");
            proof {
                lemma_keep_lines_push(done, cur, |l: Seq<char>| !is_marker_line(l));
                assert(known_hosts_kept(done).push(cur) =~= known_hosts_kept(done) + seq![cur]);
                lemma_unlines_append(known_hosts_kept(done), seq![cur]);
                assert(seq![cur].drop_first() =~= Seq::<Seq<char>>::empty());
                assert(unlines(Seq::<Seq<char>>::empty()) =~= Seq::<char>::empty());
                assert(unlines(seq![cur]) =~= cur + seq!['\n']);
                assert("\n"@ =~= seq!['\n']);
                assert(out@ =~= unlines(known_hosts_kept(done.push(cur))));
            }
        } else {
            proof {
                lemma_keep_lines_push(done, cur, |l: Seq<char>| !is_marker_line(l));
                assert(out@ =~= unlines(known_hosts_kept(done.push(cur))));
            }
        }
        proof {
            done = done.push(cur);
        }
    } else {
        proof {
            assert(cur.len() == 0);
            assert(lines_acc(Seq::<char>::empty(), cur) =~= Seq::<Seq<char>>::empty());
            assert(done + Seq::<Seq<char>>::empty() =~= done);
        }
    }
    proof {
        assert(lines_of(content@) == done);
    }
    out.append(entry);
    proof {
        reveal_strlit("\n");
    }
    out.append("\n");
    proof {
        assert(known_hosts_kept(done).push(entry@) =~= known_hosts_kept(done) + seq![entry@]);
        lemma_unlines_append(known_hosts_kept(done), seq![entry@]);
        assert(seq![entry@].drop_first() =~= Seq::<Seq<char>>::empty());
        assert(unlines(Seq::<Seq<char>>::empty()) =~= Seq::<char>::empty());
        assert(unlines(seq![entry@]) =~= entry@ + seq!['\n']);
        assert("\n"@ =~= seq!['\n']);
        assert(out@ =~= spec_known_hosts_merged(content@, entry@));
    }
    out
}

/// The updated known-hosts content for issued SSH material, or nothing for
/// host material: a host certificate never touches known-hosts.
pub fn install_known_host_content(material: &SshCertificateResponse, existing: &str) -> (r: Option<
    String,
>)
    ensures
        material.host_key_pair.typ == Some(SshCertType::Host) <==> r is None,
        r is Some ==> r->0@ == spec_known_hosts_merged(
            existing@,
            spec_known_hosts_entry(material.user_ca_pub@),
        ),
{
    match &material.host_key_pair.typ {
        Some(SshCertType::Host) => None,
        _ => {
            let entry = known_hosts_entry(material.user_ca_pub.as_str());
            Some(known_hosts_merge(existing, entry.as_str()))
        },
    }
}

/// The entry built for any anchor without a line break is itself a marker
/// line and contains no line break.
pub proof fn lemma_entry_is_marker(anchor: Seq<char>)
    requires
        !anchor.contains('\n'),
    ensures
        is_marker_line(spec_known_hosts_entry(anchor)),
        !spec_known_hosts_entry(anchor).contains('\n'),
{
    reveal_strlit("@cert-authority ");
    reveal_strlit("@cert-authority * ");
    reveal_strlit(" nioca-ssh-ca");
    let prefix = "@cert-authority * "@;
    let short_prefix = "@cert-authority "@;
    let suffix = " nioca-ssh-ca"@;
    let entry = spec_known_hosts_entry(anchor);
    assert(entry.take(16) =~= short_prefix);
    assert(entry.skip(entry.len() - 13) =~= suffix);
    assert(!prefix.contains('\n'));
    assert(!suffix.contains('\n'));
    if entry.contains('\n') {
        let i = choose|i: int| 0 <= i < entry.len() && entry[i] == '\n';
        if i < 18 {
            assert(prefix[i] == '\n');
            assert(prefix.contains('\n'));
        } else if i < 18 + anchor.len() {
            assert(anchor[i - 18] == '\n');
            assert(anchor.contains('\n'));
        } else {
            assert(suffix[i - 18 - anchor.len()] == '\n');
            assert(suffix.contains('\n'));
        }
    }
}

/// Updating a known-hosts store twice with the same entry yields exactly the
/// content of updating it once.
pub proof fn lemma_known_hosts_idempotent(content: Seq<char>, entry: Seq<char>)
    requires
        !entry.contains('\n'),
        is_marker_line(entry),
    ensures
        spec_known_hosts_merged(spec_known_hosts_merged(content, entry), entry)
            == spec_known_hosts_merged(content, entry),
{
    let pred = |l: Seq<char>| !is_marker_line(l);
    let ls = lines_of(content);
    let ks = known_hosts_kept(ls);
    let merged = spec_known_hosts_merged(content, entry);
    lemma_lines_acc_no_newline(content, seq![]);
    lemma_keep_lines_sound(ls, pred);
    assert forall|i: int| 0 <= i < ks.push(entry).len() implies !(#[trigger] ks.push(entry)[
        i]).contains('\n') by {
        if i < ks.len() {
            assert(ks.push(entry)[i] == ks[i]);
            let l = ks[i];
            assert(ls.contains(l));
            let j = choose|j: int| 0 <= j < ls.len() && ls[j] == l;
            assert(!ls[j].contains('\n'));
        } else {
            assert(ks.push(entry)[i] == entry);
        }
    }
    lemma_lines_of_unlines(ks.push(entry));
    assert(lines_of(merged) == ks.push(entry));
    lemma_keep_lines_push(ks, entry, pred);
    assert(forall|i: int| 0 <= i < ks.len() ==> pred(#[trigger] ks[i]));
    lemma_keep_lines_all(ks, pred);
    assert(known_hosts_kept(lines_of(merged)) == ks);
}

/// An update with a changed trust anchor replaces the prior anchor's line:
/// afterwards the store holds the new entry and no other marker line.
pub proof fn lemma_known_hosts_replaces(content: Seq<char>, entry: Seq<char>)
    requires
        !entry.contains('\n'),
        is_marker_line(entry),
    ensures
        lines_of(spec_known_hosts_merged(content, entry)).contains(entry),
        forall|l: Seq<char>|
            lines_of(spec_known_hosts_merged(content, entry)).contains(l) && is_marker_line(l)
                ==> l == entry,
{
    let pred = |l: Seq<char>| !is_marker_line(l);
    let ls = lines_of(content);
    let ks = known_hosts_kept(ls);
    let merged = spec_known_hosts_merged(content, entry);
    lemma_lines_acc_no_newline(content, seq![]);
    lemma_keep_lines_sound(ls, pred);
    assert forall|i: int| 0 <= i < ks.push(entry).len() implies !(#[trigger] ks.push(entry)[
        i]).contains('\n') by {
        if i < ks.len() {
            assert(ks.push(entry)[i] == ks[i]);
            let l = ks[i];
            assert(ls.contains(l));
            let j = choose|j: int| 0 <= j < ls.len() && ls[j] == l;
            assert(!ls[j].contains('\n'));
        } else {
            assert(ks.push(entry)[i] == entry);
        }
    }
    lemma_lines_of_unlines(ks.push(entry));
    assert(lines_of(merged) == ks.push(entry));
    assert(ks.push(entry)[ks.len() as int] == entry);
    assert(lines_of(merged).contains(entry));
    assert forall|l: Seq<char>|
        lines_of(merged).contains(l) && is_marker_line(l) implies l == entry by {
        let i = choose|i: int| 0 <= i < lines_of(merged).len() && lines_of(merged)[i] == l;
        if i < ks.len() {
            assert(ks[i] == l);
            assert(pred(ks[i]));
        }
    }
}

/// Installing the same trust anchor twice yields byte-identical content:
/// the first update's entry is recognised as this client's marker line,
/// removed, and appended again unchanged.
pub proof fn lemma_install_known_host_idempotent(content: Seq<char>, anchor: Seq<char>)
    requires
        !anchor.contains('\n'),
    ensures
        spec_known_hosts_merged(
            spec_known_hosts_merged(content, spec_known_hosts_entry(anchor)),
            spec_known_hosts_entry(anchor),
        ) == spec_known_hosts_merged(content, spec_known_hosts_entry(anchor)),
{
    lemma_entry_is_marker(anchor);
    lemma_known_hosts_idempotent(content, spec_known_hosts_entry(anchor));
}

/// Installing a changed trust anchor over a store that held an older anchor
/// replaces the old line: the updated store holds the new anchor's entry and
/// no other marker line — in particular none of any prior anchor.
pub proof fn lemma_install_known_host_replaces(
    content: Seq<char>,
    old_anchor: Seq<char>,
    new_anchor: Seq<char>,
)
    requires
        !old_anchor.contains('\n'),
        !new_anchor.contains('\n'),
        old_anchor != new_anchor,
    ensures
        ({
            let stored = spec_known_hosts_merged(content, spec_known_hosts_entry(old_anchor));
            let updated = spec_known_hosts_merged(stored, spec_known_hosts_entry(new_anchor));
            &&& lines_of(updated).contains(spec_known_hosts_entry(new_anchor))
            &&& !lines_of(updated).contains(spec_known_hosts_entry(old_anchor))
        }),
{
    lemma_entry_is_marker(old_anchor);
    lemma_entry_is_marker(new_anchor);
    let old_entry = spec_known_hosts_entry(old_anchor);
    let new_entry = spec_known_hosts_entry(new_anchor);
    let stored = spec_known_hosts_merged(content, old_entry);
    lemma_known_hosts_replaces(stored, new_entry);
    let updated = spec_known_hosts_merged(stored, new_entry);
    if lines_of(updated).contains(old_entry) {
        assert(old_entry == new_entry);
        reveal_strlit("@cert-authority * ");
        reveal_strlit(" nioca-ssh-ca");
        assert(old_entry.len() == 18 + old_anchor.len() + 13);
        assert(new_entry.len() == 18 + new_anchor.len() + 13);
        assert(old_entry.subrange(18, old_entry.len() - 13) =~= old_anchor);
        assert(new_entry.subrange(18, new_entry.len() - 13) =~= new_anchor);
        assert(old_anchor == new_anchor);
    }
}

} // verus!
