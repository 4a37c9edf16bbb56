//! Persistence plans for issued certificate material. A plan lists, in
//! order, the directories to create and the files to write; the caller
//! executes it against the filesystem. Every write of private key material is
//! flagged owner-only, so the key file never ends up readable by anyone but
//! the owning user.

use crate::lines::{ensure_config_line, lines_of, spec_with_line};
use crate::ssh::{SshCertType, SshCertificateResponse};
use crate::text::{spec_ends_with, spec_i64_dec, i64_to_dec, str_eq};
use crate::x509::CertX509Response;
use vstd::prelude::*;
use vstd::string::*;

verus! {

/// The include directive that makes the SSH daemon read drop-in files.
pub const SSHD_CONFIG_INCLUDE_LINE: &'static str = "Include /etc/ssh/sshd_config.d/*.conf";

/// The drop-in configuration enabling certificate-based host authentication:
/// the trusted user CA and this host's certificate key pair, at the fixed
/// system paths the privileged installation writes.
pub const SSHD_DROPIN_CONFIG: &'static str = "## Nioca SSH certificate configuration\n\n# The user CA to trust: the public key of the group this client belongs to.\nTrustedUserCAKeys /etc/ssh/id_nioca_ca.pub\n\n# This host's SSH certificate key pair.\nHostKey /etc/ssh/id_nioca_host\nHostCertificate /etc/ssh/id_nioca_host.pub\n";

/// One file to write: where, what, and whether the file must end up readable
/// and writable by the owning user alone.
#[derive(Debug, Clone)]
pub struct FileWrite {
    pub path: String,
    pub contents: String,
    pub owner_only: bool,
}

/// An ordered persistence plan: directories to create first, then files to
/// write in the listed order.
#[derive(Debug, Clone)]
pub struct InstallPlan {
    pub dirs: Vec<String>,
    pub writes: Vec<FileWrite>,
}

/// A destination prefix ending in a path separator.
pub open spec fn spec_with_sep(dest: Seq<char>) -> Seq<char> {
    if dest.len() > 0 && dest.last() == '/' {
        dest
    } else {
        dest + "/"@
    }
}

/// The live X509 material directory under a destination root.
pub open spec fn x509_dir(dest: Seq<char>) -> Seq<char> {
    spec_with_sep(dest) + "x509/"@
}

/// The append-only snapshot directory for material expiring at `not_after`.
pub open spec fn x509_snapshot_dir(dest: Seq<char>, not_after: int) -> Seq<char> {
    x509_dir(dest) + spec_i64_dec(not_after) + "/"@
}

/// The SSH material directory under a destination root.
pub open spec fn ssh_dir(dest: Seq<char>) -> Seq<char> {
    spec_with_sep(dest) + "ssh/"@
}

/// A path that holds private key material: the X509 key file or one of the
/// SSH private key files.
pub open spec fn is_private_key_path(p: Seq<char>) -> bool {
    ||| spec_ends_with(p, "/key.pem"@)
    ||| spec_ends_with(p, "/id_nioca"@)
    ||| spec_ends_with(p, "/id_nioca_host"@)
}

/// Every write of a plan that targets a private key file is owner-only.
pub open spec fn plan_secures_private_keys(plan: InstallPlan) -> bool {
    forall|i: int|
        0 <= i < plan.writes@.len() && is_private_key_path(#[trigger] plan.writes@[i].path@)
            ==> plan.writes@[i].owner_only
}

/// Whether `dir + name` ends with the anchored suffix `s` (a slash followed
/// by a file name) is decided by the file name alone, as long as the
/// directory ends with a slash and neither name contains one.
proof fn lemma_ends_with_anchor(dir: Seq<char>, name: Seq<char>, s: Seq<char>)
    requires
        dir.len() > 0,
        dir.last() == '/',
        !name.contains('/'),
        s.len() > 1,
        s[0] == '/',
        !s.skip(1).contains('/'),
    ensures
        spec_ends_with(dir + name, s) <==> name == s.skip(1),
{
    let path = dir + name;
    let p = path.len() as int;
    let n = name.len() as int;
    let d = dir.len() as int;
    let sl = s.len() as int;
    let tail = s.skip(1);
    if name == tail {
        assert(sl == n + 1);
        assert(path.skip(p - sl) =~= s) by {
            assert forall|j: int| 0 <= j < sl implies path.skip(p - sl)[j] == s[j] by {
                assert(path.skip(p - sl)[j] == path[d - 1 + j]);
                if j == 0 {
                    assert(path[d - 1] == dir.last());
                } else {
                    assert(path[d - 1 + j] == name[j - 1]);
                    assert(s[j] == tail[j - 1]);
                }
            }
        }
        assert(spec_ends_with(path, s));
    } else {
        if spec_ends_with(path, s) {
            if sl == n + 1 {
                assert(name =~= tail) by {
                    assert forall|j: int| 0 <= j < n implies name[j] == tail[j] by {
                        assert(path.skip(p - sl)[j + 1] == s[j + 1]);
                        assert(path[d + j] == name[j]);
                    }
                }
            } else if sl <= n {
                assert(path.skip(p - sl)[0] == s[0]);
                assert(path[p - sl] == name[n - sl]);
                assert(name[n - sl] == '/');
                assert(name.contains('/'));
            } else {
                assert(path.skip(p - sl)[sl - 1 - n] == s[sl - 1 - n]);
                assert(path[d - 1] == '/');
                assert(s[sl - 1 - n] == '/');
                assert(tail[sl - 2 - n] == s[sl - 1 - n]);
                assert(tail.contains('/'));
            }
        }
    }
}

/// The shared facts about the three private-key suffixes.
proof fn lemma_key_suffix_facts()
    ensures
        ("/key.pem"@).len() > 1 && ("/key.pem"@)[0] == '/' && ("/key.pem"@).skip(1)
            == "key.pem"@ && !("key.pem"@).contains('/'),
        ("/id_nioca"@).len() > 1 && ("/id_nioca"@)[0] == '/' && ("/id_nioca"@).skip(1)
            == "id_nioca"@ && !("id_nioca"@).contains('/'),
        ("/id_nioca_host"@).len() > 1 && ("/id_nioca_host"@)[0] == '/' && (
        "/id_nioca_host"@).skip(1) == "id_nioca_host"@ && !("id_nioca_host"@).contains('/'),
{
    reveal_strlit("/key.pem");
    reveal_strlit("key.pem");
    reveal_strlit("/id_nioca");
    reveal_strlit("id_nioca");
    reveal_strlit("/id_nioca_host");
    reveal_strlit("id_nioca_host");
    assert(("/key.pem"@).skip(1) =~= "key.pem"@);
    assert(("/id_nioca"@).skip(1) =~= "id_nioca"@);
    assert(("/id_nioca_host"@).skip(1) =~= "id_nioca_host"@);
}

/// A file name other than the three private-key names never makes a
/// private-key path under a slash-terminated directory.
proof fn lemma_path_not_key(dir: Seq<char>, name: Seq<char>)
    requires
        dir.len() > 0,
        dir.last() == '/',
        !name.contains('/'),
        name != "key.pem"@,
        name != "id_nioca"@,
        name != "id_nioca_host"@,
    ensures
        !is_private_key_path(dir + name),
{
    lemma_key_suffix_facts();
    lemma_ends_with_anchor(dir, name, "/key.pem"@);
    lemma_ends_with_anchor(dir, name, "/id_nioca"@);
    lemma_ends_with_anchor(dir, name, "/id_nioca_host"@);
}

/// The three private-key file names make private-key paths under any
/// slash-terminated directory.
proof fn lemma_path_is_key(dir: Seq<char>, name: Seq<char>)
    requires
        dir.len() > 0,
        dir.last() == '/',
        !name.contains('/'),
        name == "key.pem"@ || name == "id_nioca"@ || name == "id_nioca_host"@,
    ensures
        is_private_key_path(dir + name),
{
    lemma_key_suffix_facts();
    if name == "key.pem"@ {
        lemma_ends_with_anchor(dir, name, "/key.pem"@);
    } else if name == "id_nioca"@ {
        lemma_ends_with_anchor(dir, name, "/id_nioca"@);
    } else {
        lemma_ends_with_anchor(dir, name, "/id_nioca_host"@);
    }
}

/// A destination prefix with a guaranteed trailing separator.
pub fn destination(dest: &str) -> (r: String)
    ensures
        r@ == spec_with_sep(dest@),
{
    let len = dest.unicode_len();
    if len > 0 && dest.get_char(len - 1) == '/' {
        dest.to_owned()
    } else {
        let mut s = dest.to_owned();
        proof {
            reveal_strlit("/");
        }
        s.append("/");
        s
    }
}

/// The persistence plan for freshly issued X509 material: the live directory
/// and a timestamped snapshot directory, each receiving the chain, the leaf
/// certificate, and — last — the private key, owner-only. A failure while
/// executing this plan skips this iteration's publication and is not fatal.
pub fn x509_install_plan(dest: &str, material: &CertX509Response) -> (plan: InstallPlan)
    ensures
        plan.dirs@.len() == 2,
        plan.dirs@[0]@ == x509_dir(dest@),
        plan.dirs@[1]@ == x509_snapshot_dir(dest@, material.not_after as int),
        plan.writes@.len() == 6,
        plan.writes@[0].path@ == x509_dir(dest@) + "chain.pem"@,
        plan.writes@[0].contents == material.cert_chain,
        plan.writes@[1].path@ == x509_dir(dest@) + "cert.pem"@,
        plan.writes@[1].contents == material.cert,
        plan.writes@[2].path@ == x509_dir(dest@) + "key.pem"@,
        plan.writes@[2].contents == material.key,
        plan.writes@[2].owner_only,
        plan.writes@[3].path@ == x509_snapshot_dir(dest@, material.not_after as int)
            + "chain.pem"@,
        plan.writes@[3].contents == material.cert_chain,
        plan.writes@[4].path@ == x509_snapshot_dir(dest@, material.not_after as int)
            + "cert.pem"@,
        plan.writes@[4].contents == material.cert,
        plan.writes@[5].path@ == x509_snapshot_dir(dest@, material.not_after as int)
            + "key.pem"@,
        plan.writes@[5].contents == material.key,
        plan.writes@[5].owner_only,
        plan_secures_private_keys(plan),
{
    let live_dir = {
        let mut d = destination(dest);
        d.append("x509/");
        d
    };
    let snap_dir = {
        let mut d = live_dir.clone();
        let stamp = i64_to_dec(material.not_after);
        d.append(stamp.as_str());
        d.append("/");
        d
    };
    let mut dirs: Vec<String> = Vec::new();
    dirs.push(live_dir.clone());
    dirs.push(snap_dir.clone());

    let mut writes: Vec<FileWrite> = Vec::new();
    let mut live_chain = live_dir.clone();
    live_chain.append("chain.pem");
    writes.push(FileWrite { path: live_chain, contents: material.cert_chain.clone(), owner_only: false });
    let mut live_cert = live_dir.clone();
    live_cert.append("cert.pem");
    writes.push(FileWrite { path: live_cert, contents: material.cert.clone(), owner_only: false });
    let mut live_key = live_dir.clone();
    live_key.append("key.pem");
    writes.push(FileWrite { path: live_key, contents: material.key.clone(), owner_only: true });
    let mut snap_chain = snap_dir.clone();
    snap_chain.append("chain.pem");
    writes.push(FileWrite { path: snap_chain, contents: material.cert_chain.clone(), owner_only: false });
    let mut snap_cert = snap_dir.clone();
    snap_cert.append("cert.pem");
    writes.push(FileWrite { path: snap_cert, contents: material.cert.clone(), owner_only: false });
    let mut snap_key = snap_dir.clone();
    snap_key.append("key.pem");
    writes.push(FileWrite { path: snap_key, contents: material.key.clone(), owner_only: true });

    let plan = InstallPlan { dirs, writes };
    proof {
        reveal_strlit("x509/");
        reveal_strlit("/");
        reveal_strlit("chain.pem");
        reveal_strlit("cert.pem");
        reveal_strlit("key.pem");
        reveal_strlit("id_nioca");
        reveal_strlit("id_nioca_host");
        let live = x509_dir(dest@);
        let snap = x509_snapshot_dir(dest@, material.not_after as int);
        assert(live.last() == ("x509/"@).last());
        assert(live.last() == '/' && live.len() > 0);
        assert(snap.last() == ("/"@).last());
        assert(snap.last() == '/' && snap.len() > 0);
        assert(!("chain.pem"@).contains('/'));
        assert(!("cert.pem"@).contains('/'));
        assert(!("key.pem"@).contains('/'));
        assert("chain.pem"@ != "key.pem"@ && "chain.pem"@ != "id_nioca"@ && "chain.pem"@
            != "id_nioca_host"@);
        assert(("cert.pem"@)[0] != ("id_nioca"@)[0]);
        assert("cert.pem"@ != "key.pem"@ && "cert.pem"@ != "id_nioca"@ && "cert.pem"@
            != "id_nioca_host"@);
        lemma_path_not_key(live, "chain.pem"@);
        lemma_path_not_key(live, "cert.pem"@);
        lemma_path_is_key(live, "key.pem"@);
        lemma_path_not_key(snap, "chain.pem"@);
        lemma_path_not_key(snap, "cert.pem"@);
        lemma_path_is_key(snap, "key.pem"@);
        assert forall|i: int|
            0 <= i < plan.writes@.len() && is_private_key_path(
                #[trigger] plan.writes@[i].path@,
            ) implies plan.writes@[i].owner_only by {
            if i == 0 || i == 3 {
                assert(!is_private_key_path(plan.writes@[i].path@));
            } else if i == 1 || i == 4 {
                assert(!is_private_key_path(plan.writes@[i].path@));
            }
        }
    }
    plan
}

/// The persistence plan for issued SSH material under a destination root:
/// the private key (owner-only), the public certificate, and the user-CA
/// public key.
pub fn ssh_save_plan(dest: &str, material: &SshCertificateResponse) -> (plan: InstallPlan)
    ensures
        plan.dirs@.len() == 1,
        plan.dirs@[0]@ == ssh_dir(dest@),
        plan.writes@.len() == 3,
        plan.writes@[0].path@ == ssh_dir(dest@) + "id_nioca"@,
        plan.writes@[0].contents == material.host_key_pair.id,
        plan.writes@[0].owner_only,
        plan.writes@[1].path@ == ssh_dir(dest@) + "id_nioca.pub"@,
        plan.writes@[1].contents == material.host_key_pair.id_pub,
        plan.writes@[2].path@ == ssh_dir(dest@) + "id_nioca_ca.pub"@,
        plan.writes@[2].contents == material.user_ca_pub,
        plan_secures_private_keys(plan),
{
    let dir = {
        let mut d = destination(dest);
        d.append("ssh/");
        d
    };
    let mut dirs: Vec<String> = Vec::new();
    dirs.push(dir.clone());

    let mut writes: Vec<FileWrite> = Vec::new();
    let mut key_path = dir.clone();
    key_path.append("id_nioca");
    writes.push(
        FileWrite { path: key_path, contents: material.host_key_pair.id.clone(), owner_only: true },
    );
    let mut cert_path = dir.clone();
    cert_path.append("id_nioca.pub");
    writes.push(
        FileWrite { path: cert_path, contents: material.host_key_pair.id_pub.clone(), owner_only: false },
    );
    let mut anchor_path = dir.clone();
    anchor_path.append("id_nioca_ca.pub");
    writes.push(
        FileWrite { path: anchor_path, contents: material.user_ca_pub.clone(), owner_only: false },
    );

    let plan = InstallPlan { dirs, writes };
    proof {
        reveal_strlit("ssh/");
        reveal_strlit("id_nioca");
        reveal_strlit("id_nioca.pub");
        reveal_strlit("id_nioca_ca.pub");
        reveal_strlit("key.pem");
        reveal_strlit("id_nioca_host");
        let dir_spec = ssh_dir(dest@);
        assert(dir_spec.last() == ("ssh/"@).last());
        assert(dir_spec.last() == '/' && dir_spec.len() > 0);
        assert(!("id_nioca"@).contains('/'));
        assert(!("id_nioca.pub"@).contains('/'));
        assert(!("id_nioca_ca.pub"@).contains('/'));
        assert("id_nioca.pub"@ != "key.pem"@ && "id_nioca.pub"@ != "id_nioca"@ && "id_nioca.pub"@
            != "id_nioca_host"@);
        assert("id_nioca_ca.pub"@ != "key.pem"@ && "id_nioca_ca.pub"@ != "id_nioca"@
            && "id_nioca_ca.pub"@ != "id_nioca_host"@);
        lemma_path_is_key(dir_spec, "id_nioca"@);
        lemma_path_not_key(dir_spec, "id_nioca.pub"@);
        lemma_path_not_key(dir_spec, "id_nioca_ca.pub"@);
        assert forall|i: int|
            0 <= i < plan.writes@.len() && is_private_key_path(
                #[trigger] plan.writes@[i].path@,
            ) implies plan.writes@[i].owner_only by {
            if i == 1 || i == 2 {
                assert(!is_private_key_path(plan.writes@[i].path@));
            }
        }
    }
    plan
}

/// The privileged installation plan for an SSH host certificate: the trust
/// anchor, the host key (owner-only) and the host certificate at their fixed
/// system paths, the daemon drop-in configuration, and — only when it is
/// missing — the include directive appended to the main daemon configuration.
/// User material gets no plan: a user certificate never touches system SSH
/// daemon files. A failure executing this plan is fatal to the daemon cycle,
/// since a half-applied daemon configuration would be unsafe.
pub fn host_install_plan(material: &SshCertificateResponse, sshd_config: &str) -> (r: Option<
    InstallPlan,
>)
    ensures
        material.host_key_pair.typ == Some(SshCertType::User) <==> r is None,
        r is Some ==> {
            let plan = r->0;
            &&& plan.dirs@.len() == 0
            &&& plan.writes@.len() == (if lines_of(sshd_config@).contains(
                SSHD_CONFIG_INCLUDE_LINE@,
            ) {
                4int
            } else {
                5int
            })
            &&& plan.writes@[0].path@ == "/etc/ssh/id_nioca_ca.pub"@
            &&& plan.writes@[0].contents == material.user_ca_pub
            &&& plan.writes@[1].path@ == "/etc/ssh/id_nioca_host"@
            &&& plan.writes@[1].contents == material.host_key_pair.id
            &&& plan.writes@[1].owner_only
            &&& plan.writes@[2].path@ == "/etc/ssh/id_nioca_host.pub"@
            &&& plan.writes@[2].contents == material.host_key_pair.id_pub
            &&& plan.writes@[3].path@ == "/etc/ssh/sshd_config.d/10-nioca.conf"@
            &&& plan.writes@[3].contents@ == SSHD_DROPIN_CONFIG@
            &&& (plan.writes@.len() == 5 ==> plan.writes@[4].path@ == "/etc/ssh/sshd_config"@
                && plan.writes@[4].contents@ == spec_with_line(
                sshd_config@,
                SSHD_CONFIG_INCLUDE_LINE@,
            ))
            &&& plan_secures_private_keys(plan)
        },
{
    match &material.host_key_pair.typ {
        Some(SshCertType::User) => None,
        _ => {
            let mut writes: Vec<FileWrite> = Vec::new();
            writes.push(
                FileWrite {
                    path: String::from_str("/etc/ssh/id_nioca_ca.pub"),
                    contents: material.user_ca_pub.clone(),
                    owner_only: false,
                },
            );
            writes.push(
                FileWrite {
                    path: String::from_str("/etc/ssh/id_nioca_host"),
                    contents: material.host_key_pair.id.clone(),
                    owner_only: true,
                },
            );
            writes.push(
                FileWrite {
                    path: String::from_str("/etc/ssh/id_nioca_host.pub"),
                    contents: material.host_key_pair.id_pub.clone(),
                    owner_only: false,
                },
            );
            writes.push(
                FileWrite {
                    path: String::from_str("/etc/ssh/sshd_config.d/10-nioca.conf"),
                    contents: String::from_str(SSHD_DROPIN_CONFIG),
                    owner_only: false,
                },
            );
            let (updated, changed) = ensure_config_line(sshd_config, SSHD_CONFIG_INCLUDE_LINE);
            if changed {
                writes.push(
                    FileWrite {
                        path: String::from_str("/etc/ssh/sshd_config"),
                        contents: updated,
                        owner_only: false,
                    },
                );
            }
            let plan = InstallPlan { dirs: Vec::new(), writes };
            proof {
                lemma_host_paths();
                assert forall|i: int|
                    0 <= i < plan.writes@.len() && is_private_key_path(
                        #[trigger] plan.writes@[i].path@,
                    ) implies plan.writes@[i].owner_only by {
                    if i != 1 {
                        assert(!is_private_key_path(plan.writes@[i].path@));
                    }
                }
            }
            Some(plan)
        },
    }
}

/// Which of the fixed privileged SSH paths hold private key material.
proof fn lemma_host_paths()
    ensures
        !is_private_key_path("/etc/ssh/id_nioca_ca.pub"@),
        is_private_key_path("/etc/ssh/id_nioca_host"@),
        !is_private_key_path("/etc/ssh/id_nioca_host.pub"@),
        !is_private_key_path("/etc/ssh/sshd_config.d/10-nioca.conf"@),
        !is_private_key_path("/etc/ssh/sshd_config"@),
{
    reveal_strlit("/etc/ssh/");
    reveal_strlit("/etc/ssh/sshd_config.d/");
    reveal_strlit("id_nioca_ca.pub");
    reveal_strlit("id_nioca_host");
    reveal_strlit("id_nioca_host.pub");
    reveal_strlit("10-nioca.conf");
    reveal_strlit("sshd_config");
    reveal_strlit("key.pem");
    reveal_strlit("id_nioca");
    reveal_strlit("/etc/ssh/id_nioca_ca.pub");
    reveal_strlit("/etc/ssh/id_nioca_host");
    reveal_strlit("/etc/ssh/id_nioca_host.pub");
    reveal_strlit("/etc/ssh/sshd_config.d/10-nioca.conf");
    reveal_strlit("/etc/ssh/sshd_config");
    let ssh_etc = "/etc/ssh/"@;
    let dropin_dir = "/etc/ssh/sshd_config.d/"@;
    assert(ssh_etc.len() > 0 && ssh_etc.last() == '/');
    assert(dropin_dir.len() > 0 && dropin_dir.last() == '/');
    assert(!("id_nioca_ca.pub"@).contains('/'));
    assert(!("id_nioca_host"@).contains('/'));
    assert(!("id_nioca_host.pub"@).contains('/'));
    assert(!("10-nioca.conf"@).contains('/'));
    assert(!("sshd_config"@).contains('/'));
    assert("/etc/ssh/id_nioca_ca.pub"@ =~= ssh_etc + "id_nioca_ca.pub"@);
    assert("/etc/ssh/id_nioca_host"@ =~= ssh_etc + "id_nioca_host"@);
    assert("/etc/ssh/id_nioca_host.pub"@ =~= ssh_etc + "id_nioca_host.pub"@);
    assert("/etc/ssh/sshd_config.d/10-nioca.conf"@ =~= dropin_dir + "10-nioca.conf"@);
    assert("/etc/ssh/sshd_config"@ =~= ssh_etc + "sshd_config"@);
    assert("id_nioca_ca.pub"@ != "key.pem"@ && "id_nioca_ca.pub"@ != "id_nioca"@
        && "id_nioca_ca.pub"@ != "id_nioca_host"@);
    assert("id_nioca_host.pub"@ != "key.pem"@ && "id_nioca_host.pub"@ != "id_nioca"@
        && "id_nioca_host.pub"@ != "id_nioca_host"@);
    assert(("10-nioca.conf"@)[0] != ("id_nioca_host"@)[0]);
    assert("10-nioca.conf"@ != "key.pem"@ && "10-nioca.conf"@ != "id_nioca"@ && "10-nioca.conf"@
        != "id_nioca_host"@);
    assert("sshd_config"@ != "key.pem"@ && "sshd_config"@ != "id_nioca"@ && "sshd_config"@
        != "id_nioca_host"@);
    lemma_path_not_key(ssh_etc, "id_nioca_ca.pub"@);
    lemma_path_is_key(ssh_etc, "id_nioca_host"@);
    lemma_path_not_key(ssh_etc, "id_nioca_host.pub"@);
    lemma_path_not_key(dropin_dir, "10-nioca.conf"@);
    lemma_path_not_key(ssh_etc, "sshd_config"@);
}

/// The systemd unit installed for the daemon: the unit directory, the unit
/// file name (derived from the user it runs as), and the unit file contents.
pub fn systemd_service_file(user: &str) -> (r: (String, String, String))
    ensures
        r.0@ == "/etc/systemd/system"@,
        user@ == "root"@ ==> r.1@ == "nioca-client.service"@,
        user@ != "root"@ ==> r.1@ == "nioca-client-"@ + user@ + ".service"@,
        r.2@ == "[Unit]\nDescription=Nioca Client Daemon\nRequires=network-online.target\nAfter=network-online.target\nStartLimitIntervalSec=0\n\n[Service]\nRestart=always\nRestartSec=30\nUser="@
            + user@ + "\nExecStart=/usr/local/bin/nioca-client daemonize\n\n[Install]\nWantedBy=multi-user.target\n"@,
{
    let base = String::from_str("/etc/systemd/system");
    let file_name = if str_eq(user, "root") {
        String::from_str("nioca-client.service")
    } else {
        let mut n = String::from_str("nioca-client-");
        n.append(user);
        n.append(".service");
        n
    };
    let mut contents = String::from_str(
        "[Unit]\nDescription=Nioca Client Daemon\nRequires=network-online.target\nAfter=network-online.target\nStartLimitIntervalSec=0\n\n[Service]\nRestart=always\nRestartSec=30\nUser=",
    );
    contents.append(user);
    contents.append(
        "\nExecStart=/usr/local/bin/nioca-client daemonize\n\n[Install]\nWantedBy=multi-user.target\n",
    );
    (base, file_name, contents)
}

} // verus!
