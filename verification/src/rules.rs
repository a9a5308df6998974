//! The rule engine: the two fixed firewall rulesets and the baseline setup.
//!
//! Each posture has exactly one newline-delimited transaction script.  The
//! caller submits a script to the firewall tool in a single invocation with
//! the rules piped as one batch, so either the whole ruleset takes effect or
//! none of it does and the previous ruleset stays fully in force.  This
//! module only builds the scripts and the baseline command list; running the
//! tool is the process shell's job.

use vstd::prelude::*;

use crate::mode::Mode;

verus! {

/// The transaction script for the open posture: keep established flows,
/// block the peer, and leave both chains' default-accept policy covering
/// everything else (inbound SSH included).
pub open spec fn internet_ruleset_spec(tool_node_ip: Seq<char>) -> Seq<char> {
    "flush chain ip filter output\nflush chain ip filter input\nadd rule ip filter output ct state established,related accept\nadd rule ip filter output ip daddr "@
        + tool_node_ip + " drop"@
}

/// The transaction script for the isolated posture: drop inbound SSH, allow
/// outbound only to loopback, established flows, the peer and its subnet,
/// and drop all remaining outbound traffic.
pub open spec fn tool_node_ruleset_spec(tool_node_ip: Seq<char>, node_net_subnet: Seq<char>) -> Seq<
    char,
> {
    "flush chain ip filter output\nflush chain ip filter input\nadd rule ip filter input tcp dport 22 drop\nadd rule ip filter output ip daddr 127.0.0.0/8 accept\nadd rule ip filter output ct state established,related accept\nadd rule ip filter output ip daddr "@
        + tool_node_ip + " accept\nadd rule ip filter output ip daddr "@ + node_net_subnet
        + " accept\nadd rule ip filter output drop"@
}

/// The one script a target posture maps to.
pub open spec fn ruleset_spec(target: Mode, tool_node_ip: Seq<char>, node_net_subnet: Seq<char>) -> Seq<
    char,
> {
    match target {
        Mode::InternetOnly => internet_ruleset_spec(tool_node_ip),
        Mode::ToolNodeOnly => tool_node_ruleset_spec(tool_node_ip, node_net_subnet),
    }
}

/// Builds the transaction script that puts the node in the open posture.
pub fn apply_internet_mode(tool_node_ip: &str) -> (script: String)
    ensures
        script@ == internet_ruleset_spec(tool_node_ip@),
{
    let mut s = String::from_str(
        "flush chain ip filter output\nflush chain ip filter input\nadd rule ip filter output ct state established,related accept\nadd rule ip filter output ip daddr ",
    );
    s.append(tool_node_ip);
    s.append(" drop");
    s
}

/// Builds the transaction script that puts the node in the isolated posture.
pub fn apply_tool_node_mode(tool_node_ip: &str, node_net_subnet: &str) -> (script: String)
    ensures
        script@ == tool_node_ruleset_spec(tool_node_ip@, node_net_subnet@),
{
    let mut s = String::from_str(
        "flush chain ip filter output\nflush chain ip filter input\nadd rule ip filter input tcp dport 22 drop\nadd rule ip filter output ip daddr 127.0.0.0/8 accept\nadd rule ip filter output ct state established,related accept\nadd rule ip filter output ip daddr ",
    );
    s.append(tool_node_ip);
    s.append(" accept\nadd rule ip filter output ip daddr ");
    s.append(node_net_subnet);
    s.append(" accept\nadd rule ip filter output drop");
    s
}

/// Builds the script for whichever posture is requested.
pub fn ruleset_for(target: Mode, tool_node_ip: &str, node_net_subnet: &str) -> (script: String)
    ensures
        script@ == ruleset_spec(target, tool_node_ip@, node_net_subnet@),
{
    match target {
        Mode::InternetOnly => apply_internet_mode(tool_node_ip),
        Mode::ToolNodeOnly => apply_tool_node_mode(tool_node_ip, node_net_subnet),
    }
}

/// One invocation of the firewall tool during baseline setup.
pub struct NftCommand {
    /// The arguments handed to the tool, in order.
    pub args: Vec<String>,
    /// Whether a failure of this command aborts the setup.  Deleting a table
    /// that does not exist yet is tolerated; everything else is not.
    pub required: bool,
}

/// The command holds exactly these arguments and this failure policy.
pub open spec fn cmd_is(c: NftCommand, args: Seq<Seq<char>>, required: bool) -> bool {
    c.args.deep_view() == args && c.required == required
}

/// Builds the baseline setup run once at process start: delete any
/// pre-existing filter table (absence tolerated), create a fresh table, and
/// create an `output` and an `input` chain hooked at the filter stage with
/// accept-by-default policy.
pub fn init_nftables() -> (cmds: Vec<NftCommand>)
    ensures
        cmds@.len() == 4,
        cmd_is(cmds@[0], seq!["delete"@, "table"@, "ip"@, "filter"@], false),
        cmd_is(cmds@[1], seq!["add"@, "table"@, "ip"@, "filter"@], true),
        cmd_is(
            cmds@[2],
            seq![
                "add"@,
                "chain"@,
                "ip"@,
                "filter"@,
                "output"@,
                "{ type filter hook output priority 0 ; policy accept ; }"@,
            ],
            true,
        ),
        cmd_is(
            cmds@[3],
            seq![
                "add"@,
                "chain"@,
                "ip"@,
                "filter"@,
                "input"@,
                "{ type filter hook input priority 0 ; policy accept ; }"@,
            ],
            true,
        ),
{
    let mut cmds: Vec<NftCommand> = Vec::new();

    let mut a0: Vec<String> = Vec::new();
    a0.push(String::from_str("delete"));
    a0.push(String::from_str("table"));
    a0.push(String::from_str("ip"));
    a0.push(String::from_str("filter"));
    proof {
        assert(a0.deep_view() =~= seq!["delete"@, "table"@, "ip"@, "filter"@]);
    }
    cmds.push(NftCommand { args: a0, required: false });

    let mut a1: Vec<String> = Vec::new();
    a1.push(String::from_str("add"));
    a1.push(String::from_str("table"));
    a1.push(String::from_str("ip"));
    a1.push(String::from_str("filter"));
    proof {
        assert(a1.deep_view() =~= seq!["add"@, "table"@, "ip"@, "filter"@]);
    }
    cmds.push(NftCommand { args: a1, required: true });

    let mut a2: Vec<String> = Vec::new();
    a2.push(String::from_str("add"));
    a2.push(String::from_str("chain"));
    a2.push(String::from_str("ip"));
    a2.push(String::from_str("filter"));
    a2.push(String::from_str("output"));
    a2.push(String::from_str("{ type filter hook output priority 0 ; policy accept ; }"));
    proof {
        assert(a2.deep_view() =~= seq![
            "add"@,
            "chain"@,
            "ip"@,
            "filter"@,
            "output"@,
            "{ type filter hook output priority 0 ; policy accept ; }"@,
        ]);
    }
    cmds.push(NftCommand { args: a2, required: true });

    let mut a3: Vec<String> = Vec::new();
    a3.push(String::from_str("add"));
    a3.push(String::from_str("chain"));
    a3.push(String::from_str("ip"));
    a3.push(String::from_str("filter"));
    a3.push(String::from_str("input"));
    a3.push(String::from_str("{ type filter hook input priority 0 ; policy accept ; }"));
    proof {
        assert(a3.deep_view() =~= seq![
            "add"@,
            "chain"@,
            "ip"@,
            "filter"@,
            "input"@,
            "{ type filter hook input priority 0 ; policy accept ; }"@,
        ]);
    }
    cmds.push(NftCommand { args: a3, required: true });

    cmds
}

/// The diagnostic recorded when the firewall tool rejects a transaction.
pub open spec fn nft_error_spec(stderr: Seq<char>) -> Seq<char> {
    "nft atomic transaction failed: "@ + stderr
}

/// Reads the firewall tool's exit after a transaction was submitted:
/// success exactly on a successful exit status, and otherwise the diagnostic
/// carrying the tool's own stderr text, handed unchanged to the caller while
/// the previous ruleset stays in force.
pub fn nft_outcome(exit_success: bool, stderr: &str) -> (r: Result<(), String>)
    ensures
        r is Ok <==> exit_success,
        r matches Err(m) ==> m@ == nft_error_spec(stderr@),
{
    if exit_success {
        Ok(())
    } else {
        let mut m = String::from_str("nft atomic transaction failed: ");
        m.append(stderr);
        Err(m)
    }
}

/// The engine only ever emits one of the two fixed scripts, and those two are
/// never the same text, whatever addresses are spliced in: every transaction
/// carries exactly one posture's ruleset, never a mixture of the two.
pub proof fn lemma_rulesets_exclusive(tool_node_ip: Seq<char>, node_net_subnet: Seq<char>)
    ensures
        internet_ruleset_spec(tool_node_ip) != tool_node_ruleset_spec(
            tool_node_ip,
            node_net_subnet,
        ),
        forall|m: Mode|
            #[trigger] ruleset_spec(m, tool_node_ip, node_net_subnet) == internet_ruleset_spec(
                tool_node_ip,
            ) || ruleset_spec(m, tool_node_ip, node_net_subnet) == tool_node_ruleset_spec(
                tool_node_ip,
                node_net_subnet,
            ),
{
    reveal_strlit(
        "flush chain ip filter output\nflush chain ip filter input\nadd rule ip filter output ct state established,related accept\nadd rule ip filter output ip daddr ",
    );
    reveal_strlit(
        "flush chain ip filter output\nflush chain ip filter input\nadd rule ip filter input tcp dport 22 drop\nadd rule ip filter output ip daddr 127.0.0.0/8 accept\nadd rule ip filter output ct state established,related accept\nadd rule ip filter output ip daddr ",
    );
    let a =
        "flush chain ip filter output\nflush chain ip filter input\nadd rule ip filter output ct state established,related accept\nadd rule ip filter output ip daddr "@;
    let c =
        "flush chain ip filter output\nflush chain ip filter input\nadd rule ip filter input tcp dport 22 drop\nadd rule ip filter output ip daddr 127.0.0.0/8 accept\nadd rule ip filter output ct state established,related accept\nadd rule ip filter output ip daddr "@;
    assert(a[76] == 'o');
    assert(c[76] == 'i');
    assert(internet_ruleset_spec(tool_node_ip)[76] == 'o');
    assert(tool_node_ruleset_spec(tool_node_ip, node_net_subnet)[76] == 'i');
}

} // verus!
