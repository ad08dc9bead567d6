//! The commands on an environment's private network.
use crate::text::{same, texts};
use vstd::prelude::*;
use vstd::string::*;

verus! {

/// What can be asked of `edge-controller vultr-vpc`.
pub const VPC_USAGE: &'static str =
    "usage:\n  edge-controller vultr-vpc inventory <spec-path>\n  edge-controller vultr-vpc plan <spec-path>\n  edge-controller vultr-vpc apply <spec-path>\n  edge-controller vultr-vpc attachment-plan <spec-path>\n  edge-controller vultr-vpc attachment-apply <spec-path>\n  edge-controller vultr-vpc verify <spec-path>\n  edge-controller vultr-vpc cleanup-plan <spec-path>\n  edge-controller vultr-vpc cleanup-apply <spec-path> <destructive-digest>";

/// A command of `edge-controller vultr-vpc`.
#[derive(Debug, Clone, Copy, PartialEq, Eq, Structural)]
pub enum VpcCommand {
    Inventory,
    Plan,
    Apply,
    AttachmentPlan,
    AttachmentApply,
    Verify,
    CleanupPlan,
    CleanupApply,
}

/// The command that goes by a word.
pub open spec fn vpc_command_named(word: Seq<char>) -> Option<VpcCommand> {
    if word == "inventory"@ {
        Some(VpcCommand::Inventory)
    } else if word == "plan"@ {
        Some(VpcCommand::Plan)
    } else if word == "apply"@ {
        Some(VpcCommand::Apply)
    } else if word == "attachment-plan"@ {
        Some(VpcCommand::AttachmentPlan)
    } else if word == "attachment-apply"@ {
        Some(VpcCommand::AttachmentApply)
    } else if word == "verify"@ {
        Some(VpcCommand::Verify)
    } else if word == "cleanup-plan"@ {
        Some(VpcCommand::CleanupPlan)
    } else if word == "cleanup-apply"@ {
        Some(VpcCommand::CleanupApply)
    } else {
        None
    }
}

/// How many words may follow a command.
pub open spec fn vpc_command_takes(command: VpcCommand, words: nat) -> bool {
    match command {
        VpcCommand::Inventory => words == 1,
        VpcCommand::Plan => words == 1,
        VpcCommand::Apply => words == 1,
        VpcCommand::AttachmentPlan => words == 1,
        VpcCommand::AttachmentApply => words == 1,
        VpcCommand::Verify => words == 1,
        VpcCommand::CleanupPlan => words == 1,
        VpcCommand::CleanupApply => words == 2,
    }
}

/// The sentence for a command with too few or too many words.
pub open spec fn vpc_command_usage(command: VpcCommand) -> Seq<char> {
    match command {
        VpcCommand::Inventory => "usage: edge-controller vultr-vpc inventory <spec-path>"@,
        VpcCommand::Plan => "usage: edge-controller vultr-vpc plan <spec-path>"@,
        VpcCommand::Apply => "usage: edge-controller vultr-vpc apply <spec-path>"@,
        VpcCommand::AttachmentPlan => "usage: edge-controller vultr-vpc attachment-plan <spec-path>"@,
        VpcCommand::AttachmentApply => "usage: edge-controller vultr-vpc attachment-apply <spec-path>"@,
        VpcCommand::Verify => "usage: edge-controller vultr-vpc verify <spec-path>"@,
        VpcCommand::CleanupPlan => "usage: edge-controller vultr-vpc cleanup-plan <spec-path>"@,
        VpcCommand::CleanupApply => "usage: edge-controller vultr-vpc cleanup-apply <spec-path> <destructive-digest>"@,
    }
}

fn vpc_command_of(word: &str) -> (r: Option<VpcCommand>)
    ensures
        r == vpc_command_named(word@),
{
    if same(word, "inventory") {
        Some(VpcCommand::Inventory)
    } else if same(word, "plan") {
        Some(VpcCommand::Plan)
    } else if same(word, "apply") {
        Some(VpcCommand::Apply)
    } else if same(word, "attachment-plan") {
        Some(VpcCommand::AttachmentPlan)
    } else if same(word, "attachment-apply") {
        Some(VpcCommand::AttachmentApply)
    } else if same(word, "verify") {
        Some(VpcCommand::Verify)
    } else if same(word, "cleanup-plan") {
        Some(VpcCommand::CleanupPlan)
    } else if same(word, "cleanup-apply") {
        Some(VpcCommand::CleanupApply)
    } else {
        None
    }
}

fn vpc_command_usage_line(command: VpcCommand) -> (r: &'static str)
    ensures
        r@ == vpc_command_usage(command),
{
    match command {
        VpcCommand::Inventory => "usage: edge-controller vultr-vpc inventory <spec-path>",
        VpcCommand::Plan => "usage: edge-controller vultr-vpc plan <spec-path>",
        VpcCommand::Apply => "usage: edge-controller vultr-vpc apply <spec-path>",
        VpcCommand::AttachmentPlan => "usage: edge-controller vultr-vpc attachment-plan <spec-path>",
        VpcCommand::AttachmentApply => "usage: edge-controller vultr-vpc attachment-apply <spec-path>",
        VpcCommand::Verify => "usage: edge-controller vultr-vpc verify <spec-path>",
        VpcCommand::CleanupPlan => "usage: edge-controller vultr-vpc cleanup-plan <spec-path>",
        VpcCommand::CleanupApply => "usage: edge-controller vultr-vpc cleanup-apply <spec-path> <destructive-digest>",
    }
}

fn vpc_command_accepts(command: VpcCommand, words: usize) -> (r: bool)
    ensures
        r == vpc_command_takes(command, words as nat),
{
    match command {
        VpcCommand::Inventory => words == 1,
        VpcCommand::Plan => words == 1,
        VpcCommand::Apply => words == 1,
        VpcCommand::AttachmentPlan => words == 1,
        VpcCommand::AttachmentApply => words == 1,
        VpcCommand::Verify => words == 1,
        VpcCommand::CleanupPlan => words == 1,
        VpcCommand::CleanupApply => words == 2,
    }
}

/// Whether `result` is what the words ask for: the command that the first of
/// them names, where it takes as many words as follow, else what is wrong.
pub open spec fn vpc_command_reads(args: Seq<Seq<char>>, result: Result<VpcCommand, Seq<char>>) -> bool {
    if args.len() == 0 {
        result == Err::<VpcCommand, Seq<char>>(VPC_USAGE@)
    } else {
        match vpc_command_named(args[0]) {
            None => result == Err::<VpcCommand, Seq<char>>(VPC_USAGE@),
            Some(command) => if vpc_command_takes(command, (args.len() - 1) as nat) {
                result == Ok::<VpcCommand, Seq<char>>(command)
            } else {
                result == Err::<VpcCommand, Seq<char>>(vpc_command_usage(command))
            },
        }
    }
}

/// Reads what is asked for. The words that follow the first are the command's.
pub fn read_vpc_command(args: &Vec<String>) -> (r: Result<VpcCommand, String>)
    ensures
        match r {
            Ok(command) => vpc_command_reads(texts(args@), Ok(command)),
            Err(e) => vpc_command_reads(texts(args@), Err(e@)),
        },
{
    if args.len() == 0 {
        return Err(VPC_USAGE.to_owned());
    }
    assert(texts(args@)[0] == args@[0]@);
    match vpc_command_of(args[0].as_str()) {
        None => Err(VPC_USAGE.to_owned()),
        Some(command) => {
            if vpc_command_accepts(command, args.len() - 1) {
                Ok(command)
            } else {
                Err(vpc_command_usage_line(command).to_owned())
            }
        },
    }
}

/// What can be asked of `edge-controller vultr-vpc`.
pub fn usage() -> (r: String)
    ensures
        r@ == VPC_USAGE@,
{
    VPC_USAGE.to_owned()
}

/// The commands are told apart by their words, and only the one that removes a
/// network takes the digest that allows it.
pub proof fn law_only_removal_takes_a_digest(args: Vec<String>, r: Result<VpcCommand, String>)
    requires
        call_ensures(read_vpc_command, (&args,), r),
    ensures
        r matches Ok(command) ==> {
            &&& args@.len() == 2 || args@.len() == 3
            &&& command is CleanupApply <==> args@.len() == 3
            &&& command is CleanupApply <==> args@[0]@ == "cleanup-apply"@
            &&& command is Apply <==> args@[0]@ == "apply"@
            &&& command is AttachmentApply <==> args@[0]@ == "attachment-apply"@
            &&& command is Plan <==> args@[0]@ == "plan"@
            &&& command is Verify <==> args@[0]@ == "verify"@
            &&& command is CleanupPlan <==> args@[0]@ == "cleanup-plan"@
        },
        args@.len() == 3 && args@[0]@ == "cleanup-apply"@ ==> r is Ok,
        args@.len() == 2 && (args@[0]@ == "plan"@ || args@[0]@ == "apply"@ || args@[0]@
            == "verify"@ || args@[0]@ == "cleanup-plan"@) ==> r is Ok,
{
    reveal_strlit("inventory");
    reveal_strlit("plan");
    reveal_strlit("apply");
    reveal_strlit("attachment-plan");
    reveal_strlit("attachment-apply");
    reveal_strlit("verify");
    reveal_strlit("cleanup-plan");
    reveal_strlit("cleanup-apply");
    assert("inventory"@.len() == 9 && "plan"@.len() == 4 && "apply"@.len() == 5);
    assert("attachment-plan"@.len() == 15 && "attachment-apply"@.len() == 16);
    assert("verify"@.len() == 6 && "cleanup-plan"@.len() == 12 && "cleanup-apply"@.len() == 13);
    let all = texts(args@);
    assert(all.len() == args@.len());
    if args@.len() > 0 {
        assert(all[0] == args@[0]@);
    }
}

} // verus!
