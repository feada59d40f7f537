//! The argument vector of the `nix shell` invocation.

use crate::defaults::{PROGRAM, REPO_PREFIX, SUBCOMMAND};
use vstd::prelude::*;
use vstd::string::StringExecFns;

verus! {

/// The installable `<prefix>/<revision>#<package>`, by plain concatenation.
pub open spec fn installable_name(package: Seq<char>, revision: Seq<char>) -> Seq<char> {
    REPO_PREFIX@ + "/"@ + revision + "#"@ + package
}

/// The whole command: program, subcommand, one installable for each package
/// in the order given, then the passthrough arguments as they are.
pub open spec fn command_tokens(
    packages: Seq<Seq<char>>,
    revision: Seq<char>,
    passthrough: Seq<Seq<char>>,
) -> Seq<Seq<char>> {
    seq![PROGRAM@, SUBCOMMAND@]
        + Seq::new(packages.len(), |i: int| installable_name(packages[i], revision))
        + passthrough
}

/// The tokens of a command on one line, with `separator` between neighbours.
pub open spec fn joined(tokens: Seq<Seq<char>>, separator: Seq<char>) -> Seq<char>
    decreases tokens.len(),
{
    if tokens.len() == 0 {
        Seq::empty()
    } else if tokens.len() == 1 {
        tokens[0]
    } else {
        joined(tokens.drop_last(), separator) + separator + tokens.last()
    }
}

/// The line that a dry run shows for a command.
pub open spec fn command_line(tokens: Seq<Seq<char>>) -> Seq<char> {
    joined(tokens, " "@)
}

/// Names the flake output for `package_name` at `nixpkgs_revision`.
pub fn nixpkgs_flake_installable_name(package_name: &str, nixpkgs_revision: &str) -> (name: String)
    ensures
        name@ == installable_name(package_name@, nixpkgs_revision@),
{
    let mut name = String::from_str(REPO_PREFIX);
    name.append("/");
    name.append(nixpkgs_revision);
    name.append("#");
    name.append(package_name);
    name
}

/// Builds the argument vector that installs `packages` from nixpkgs at
/// `nixpkgs_revision` and forwards `passthrough_args` untouched.
pub fn make_command(
    packages: &[String],
    nixpkgs_revision: &str,
    passthrough_args: &[String],
) -> (args: Vec<String>)
    ensures
        args.deep_view() == command_tokens(
            packages.deep_view(),
            nixpkgs_revision@,
            passthrough_args.deep_view(),
        ),
{
    let ghost target = command_tokens(
        packages.deep_view(),
        nixpkgs_revision@,
        passthrough_args.deep_view(),
    );
    let mut args: Vec<String> = Vec::new();
    args.push(String::from_str(PROGRAM));
    args.push(String::from_str(SUBCOMMAND));
    let mut i: usize = 0;
    while i < packages.len()
        invariant
            i <= packages.len(),
            target == command_tokens(
                packages.deep_view(),
                nixpkgs_revision@,
                passthrough_args.deep_view(),
            ),
            args@.len() == 2 + i,
            forall|k: int| 0 <= k < args@.len() ==> (#[trigger] args@[k])@ == target[k],
        decreases packages.len() - i,
    {
        let name = nixpkgs_flake_installable_name(packages[i].as_str(), nixpkgs_revision);
        args.push(name);
        i += 1;
    }
    let mut j: usize = 0;
    while j < passthrough_args.len()
        invariant
            j <= passthrough_args.len(),
            target == command_tokens(
                packages.deep_view(),
                nixpkgs_revision@,
                passthrough_args.deep_view(),
            ),
            args@.len() == 2 + packages@.len() + j,
            forall|k: int| 0 <= k < args@.len() ==> (#[trigger] args@[k])@ == target[k],
        decreases passthrough_args.len() - j,
    {
        args.push(passthrough_args[j].clone());
        j += 1;
    }
    assert(args.deep_view() =~= target);
    args
}

/// Renders a command as the single line that a dry run shows: its tokens
/// with one space between neighbours.
pub fn render_command(command: &[String]) -> (line: String)
    ensures
        line@ == command_line(command.deep_view()),
{
    let ghost tokens = command.deep_view();
    let mut line = String::new();
    let mut i: usize = 0;
    while i < command.len()
        invariant
            i <= command.len(),
            tokens == command.deep_view(),
            line@ == joined(tokens.take(i as int), " "@),
        decreases command.len() - i,
    {
        if i > 0 {
            line.append(" ");
        }
        line.append(command[i].as_str());
        assert(tokens.take(i + 1).drop_last() =~= tokens.take(i as int));
        i += 1;
    }
    assert(tokens.take(i as int) =~= tokens);
    line
}

/// With no passthrough arguments a command holds the two fixed tokens and
/// then exactly one installable for each package, in the order of the
/// packages.
pub proof fn lemma_command_without_passthrough(packages: Seq<Seq<char>>, revision: Seq<char>)
    ensures
        ({
            let command = command_tokens(packages, revision, Seq::empty());
            &&& command.len() == packages.len() + 2
            &&& command[0] == PROGRAM@
            &&& command[1] == SUBCOMMAND@
            &&& forall|k: int|
                2 <= k < 2 + packages.len() ==> #[trigger] command[k] == installable_name(
                    packages[k - 2],
                    revision,
                )
        }),
{
}

/// Every token of a command is where its input stands: the installables
/// follow the packages position by position, and the passthrough arguments
/// come last, unchanged and in their own order.
pub proof fn lemma_command_layout(
    packages: Seq<Seq<char>>,
    revision: Seq<char>,
    passthrough: Seq<Seq<char>>,
)
    ensures
        ({
            let command = command_tokens(packages, revision, passthrough);
            let installables_end = 2 + packages.len();
            &&& command.len() == installables_end + passthrough.len()
            &&& command[0] == PROGRAM@
            &&& command[1] == SUBCOMMAND@
            &&& forall|k: int|
                2 <= k < installables_end ==> #[trigger] command[k] == installable_name(
                    packages[k - 2],
                    revision,
                )
            &&& forall|k: int|
                installables_end <= k < command.len() ==> #[trigger] command[k]
                    == passthrough[k - installables_end]
        }),
{
}

/// The command is a function of its inputs: the same packages, revision and
/// passthrough arguments give the same tokens, every time.
pub proof fn lemma_command_deterministic(
    packages: Seq<Seq<char>>,
    revision: Seq<char>,
    passthrough: Seq<Seq<char>>,
    packages_again: Seq<Seq<char>>,
    revision_again: Seq<char>,
    passthrough_again: Seq<Seq<char>>,
)
    requires
        packages == packages_again,
        revision == revision_again,
        passthrough == passthrough_again,
    ensures
        command_tokens(packages, revision, passthrough) == command_tokens(
            packages_again,
            revision_again,
            passthrough_again,
        ),
{
}

/// Rearranging the packages rearranges their installables in the same way
/// and touches nothing else: where `permuted[i]` is `packages[from[i]]` at
/// every position, the installable at `i` of the one command is the
/// installable at `from[i]` of the other. Nothing is sorted, merged or left
/// out.
pub proof fn lemma_command_follows_package_order(
    packages: Seq<Seq<char>>,
    permuted: Seq<Seq<char>>,
    from: Seq<int>,
    revision: Seq<char>,
    passthrough: Seq<Seq<char>>,
)
    requires
        permuted.len() == packages.len(),
        from.len() == packages.len(),
        forall|i: int| 0 <= i < from.len() ==> 0 <= #[trigger] from[i] < packages.len(),
        forall|i: int| 0 <= i < permuted.len() ==> #[trigger] permuted[i] == packages[from[i]],
    ensures
        ({
            let command = command_tokens(packages, revision, passthrough);
            let rearranged = command_tokens(permuted, revision, passthrough);
            &&& rearranged.len() == command.len()
            &&& rearranged[0] == command[0]
            &&& rearranged[1] == command[1]
            &&& forall|k: int|
                2 <= k < 2 + permuted.len() ==> #[trigger] rearranged[k] == command[2 + from[k
                    - 2]]
            &&& forall|k: int|
                2 + permuted.len() <= k < rearranged.len() ==> #[trigger] rearranged[k]
                    == command[k]
        }),
{
    lemma_command_layout(packages, revision, passthrough);
    lemma_command_layout(permuted, revision, passthrough);
    let command = command_tokens(packages, revision, passthrough);
    let rearranged = command_tokens(permuted, revision, passthrough);
    assert forall|k: int| 2 <= k < 2 + permuted.len() implies #[trigger] rearranged[k]
        == command[2 + from[k - 2]] by {
        assert(permuted[k - 2] == packages[from[k - 2]]);
    }
}

/// Different packages give different installables at one revision.
pub proof fn lemma_installable_name_injective(
    package: Seq<char>,
    other: Seq<char>,
    revision: Seq<char>,
)
    requires
        installable_name(package, revision) == installable_name(other, revision),
    ensures
        package == other,
{
    let head = REPO_PREFIX@ + "/"@ + revision + "#"@;
    let name = installable_name(package, revision);
    assert(name.subrange(head.len() as int, name.len() as int) =~= package);
    assert(name.subrange(head.len() as int, name.len() as int) =~= other);
}

/// A command determines the list of packages that it was built from: two
/// lists that give the same command at one revision are the same list, in
/// the same order and with the same repetitions.
pub proof fn lemma_command_injective_in_packages(
    packages: Seq<Seq<char>>,
    others: Seq<Seq<char>>,
    revision: Seq<char>,
    passthrough: Seq<Seq<char>>,
)
    requires
        command_tokens(packages, revision, passthrough) == command_tokens(
            others,
            revision,
            passthrough,
        ),
    ensures
        packages == others,
{
    lemma_command_layout(packages, revision, passthrough);
    lemma_command_layout(others, revision, passthrough);
    let command = command_tokens(packages, revision, passthrough);
    assert forall|i: int| 0 <= i < packages.len() implies packages[i] == others[i] by {
        assert(command[2 + i] == installable_name(packages[i], revision));
        assert(command[2 + i] == installable_name(others[i], revision));
        lemma_installable_name_injective(packages[i], others[i], revision);
    }
    assert(packages =~= others);
}

} // verus!
