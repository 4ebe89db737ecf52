use vstd::prelude::*;
use crate::config::Config;
use crate::resolve::{effective, resolve};
use crate::text::{all_chars, same_text};

verus! {

/// A token that is an option for the runtime: it starts with `-`.
pub open spec fn is_option(t: Seq<char>) -> bool {
    t.len() > 0 && t[0] == '-'
}

/// The options whose value is the next token. Each is matched by its whole
/// text, so a token such as `--name=app`, which holds its value after `=`,
/// is not one of them.
pub open spec fn takes_value(t: Seq<char>) -> bool {
    ||| t == "-p"@
    ||| t == "--publish"@
    ||| t == "-v"@
    ||| t == "--volume"@
    ||| t == "-e"@
    ||| t == "--env"@
    ||| t == "--name"@
    ||| t == "--network"@
    ||| t == "-u"@
    ||| t == "--user"@
    ||| t == "-w"@
    ||| t == "--workdir"@
    ||| t == "--entrypoint"@
    ||| t == "--hostname"@
    ||| t == "-m"@
    ||| t == "--memory"@
    ||| t == "--cpus"@
    ||| t == "-l"@
    ||| t == "--label"@
}

/// Splits run tokens into the runtime's options and the container's
/// command. Options are taken from the front, each with its value where it
/// takes one; the first other token and all that follow it are the command.
/// A value-taking option that is the last token stands alone.
pub open spec fn classified(tokens: Seq<String>) -> (Seq<String>, Seq<String>)
    decreases tokens.len(),
{
    if tokens.len() == 0 {
        (Seq::empty(), Seq::empty())
    } else if !is_option(tokens[0]@) {
        (Seq::empty(), tokens)
    } else if takes_value(tokens[0]@) && tokens.len() >= 2 {
        let rest = classified(tokens.subrange(2, tokens.len() as int));
        (seq![tokens[0], tokens[1]] + rest.0, rest.1)
    } else {
        let rest = classified(tokens.drop_first());
        (seq![tokens[0]] + rest.0, rest.1)
    }
}

fn is_option_token(t: &str) -> (r: bool)
    ensures
        r == is_option(t@),
{
    t.unicode_len() > 0 && t.get_char(0) == '-'
}

fn takes_value_token(t: &str) -> (r: bool)
    ensures
        r == takes_value(t@),
{
    same_text(t, "-p") || same_text(t, "--publish") || same_text(t, "-v") || same_text(
        t,
        "--volume",
    ) || same_text(t, "-e") || same_text(t, "--env") || same_text(t, "--name") || same_text(
        t,
        "--network",
    ) || same_text(t, "-u") || same_text(t, "--user") || same_text(t, "-w") || same_text(
        t,
        "--workdir",
    ) || same_text(t, "--entrypoint") || same_text(t, "--hostname") || same_text(t, "-m")
        || same_text(t, "--memory") || same_text(t, "--cpus") || same_text(t, "-l") || same_text(
        t,
        "--label",
    )
}

/// Splits the tokens given to a run into runtime options, placed before the
/// image, and the container's command, placed after it.
pub fn classify_run_args(tokens: &Vec<String>) -> (r: (Vec<String>, Vec<String>))
    ensures
        r.0@ == classified(tokens@).0,
        r.1@ == classified(tokens@).1,
{
    let n = tokens.len();
    let mut options: Vec<String> = Vec::new();
    let mut i: usize = 0;
    assert(tokens@.subrange(0, n as int) =~= tokens@);
    while i < n
        invariant
            n == tokens@.len(),
            i <= n,
            classified(tokens@).0 == options@ + classified(tokens@.subrange(i as int, n as int)).0,
            classified(tokens@).1 == classified(tokens@.subrange(i as int, n as int)).1,
        decreases n - i,
    {
        let ghost rest = tokens@.subrange(i as int, n as int);
        let t = &tokens[i];
        if !is_option_token(t.as_str()) {
            let mut command: Vec<String> = Vec::new();
            let mut j: usize = i;
            while j < n
                invariant
                    n == tokens@.len(),
                    i <= j <= n,
                    command@ == tokens@.subrange(i as int, j as int),
                decreases n - j,
            {
                command.push(tokens[j].clone());
                assert(command@ =~= tokens@.subrange(i as int, j + 1));
                j = j + 1;
            }
            assert(options@ + Seq::<String>::empty() =~= options@);
            return (options, command);
        }
        if takes_value_token(t.as_str()) && i + 1 < n {
            assert(rest.subrange(2, rest.len() as int) =~= tokens@.subrange(i + 2, n as int));
            let ghost before = options@;
            options.push(t.clone());
            options.push(tokens[i + 1].clone());
            let ghost after_rest = classified(tokens@.subrange(i + 2, n as int)).0;
            assert(before + (seq![rest[0], rest[1]] + after_rest) =~= options@ + after_rest);
            i = i + 2;
        } else {
            assert(rest.drop_first() =~= tokens@.subrange(i + 1, n as int));
            let ghost before = options@;
            options.push(t.clone());
            let ghost after_rest = classified(tokens@.subrange(i + 1, n as int)).0;
            assert(before + (seq![rest[0]] + after_rest) =~= options@ + after_rest);
            i = i + 1;
        }
    }
    let ghost rest = tokens@.subrange(n as int, n as int);
    assert(options@ + Seq::<String>::empty() =~= options@);
    (options, Vec::new())
}

/// The decimal digits of `n`, without leading zeros.
pub open spec fn decimal(n: nat) -> Seq<char>
    decreases n,
{
    if n < 10 {
        seq![digit(n)]
    } else {
        decimal(n / 10).push(digit(n % 10))
    }
}

/// The character of a decimal digit.
pub open spec fn digit(d: nat) -> char {
    if d == 0 { '0' }
    else if d == 1 { '1' }
    else if d == 2 { '2' }
    else if d == 3 { '3' }
    else if d == 4 { '4' }
    else if d == 5 { '5' }
    else if d == 6 { '6' }
    else if d == 7 { '7' }
    else if d == 8 { '8' }
    else { '9' }
}

/// The publish value that maps a container port to the same host port.
pub open spec fn port_mapping_text(port: u16) -> Seq<char> {
    decimal(port as nat) + ":"@ + decimal(port as nat)
}

/// The text of one decimal digit.
fn digit_text(d: u16) -> (r: &'static str)
    requires
        d < 10,
    ensures
        r@ == seq![digit(d as nat)],
{
    if d == 0 {
        proof { reveal_strlit("0"); }
        "0"
    } else if d == 1 {
        proof { reveal_strlit("1"); }
        "1"
    } else if d == 2 {
        proof { reveal_strlit("2"); }
        "2"
    } else if d == 3 {
        proof { reveal_strlit("3"); }
        "3"
    } else if d == 4 {
        proof { reveal_strlit("4"); }
        "4"
    } else if d == 5 {
        proof { reveal_strlit("5"); }
        "5"
    } else if d == 6 {
        proof { reveal_strlit("6"); }
        "6"
    } else if d == 7 {
        proof { reveal_strlit("7"); }
        "7"
    } else if d == 8 {
        proof { reveal_strlit("8"); }
        "8"
    } else {
        proof { reveal_strlit("9"); }
        "9"
    }
}

/// `n` written in decimal, without leading zeros.
fn decimal_text(n: u16) -> (r: String)
    ensures
        r@ == decimal(n as nat),
    decreases n,
{
    if n < 10 {
        String::from_str(digit_text(n))
    } else {
        let r = decimal_text(n / 10).concat(digit_text(n % 10));
        assert(r@ =~= decimal(n as nat));
        r
    }
}

/// The publish value `port:port`.
fn port_mapping(port: u16) -> (r: String)
    ensures
        r@ == port_mapping_text(port),
{
    let text = decimal_text(port);
    let r = text.clone().concat(":").concat(text.as_str());
    assert(r@ =~= port_mapping_text(port));
    r
}

/// The publish options for each port, in order.
pub open spec fn publish_flags(ports: Seq<u16>) -> Seq<Seq<char>>
    decreases ports.len(),
{
    if ports.len() == 0 {
        Seq::empty()
    } else {
        publish_flags(ports.drop_last()) + seq!["-p"@, port_mapping_text(ports.last())]
    }
}

/// The arguments given to the runtime when the user gives none: each
/// effective port published on the same host port, then `-it`.
pub open spec fn default_run_options(config: Config, environment: Seq<char>) -> Seq<Seq<char>> {
    publish_flags(effective(config, environment).ports) + seq!["-it"@]
}

/// The arguments of `docker` that run `image`: the user's options before
/// the image and the user's command after it, or the default options where
/// the user gave no token.
pub open spec fn run_command(
    config: Config,
    environment: Seq<char>,
    image: Seq<char>,
    tokens: Seq<String>,
) -> Seq<Seq<char>> {
    if tokens.len() == 0 {
        seq!["run"@] + default_run_options(config, environment) + seq![image]
    } else {
        seq!["run"@] + all_chars(classified(tokens).0) + seq![image] + all_chars(
            classified(tokens).1,
        )
    }
}

/// The characters of a concatenation are the concatenated characters.
proof fn lemma_all_chars_concat(a: Seq<String>, b: Seq<String>)
    ensures
        all_chars(a + b) == all_chars(a) + all_chars(b),
{
    assert(all_chars(a + b) =~= all_chars(a) + all_chars(b));
}

fn push_all(r: &mut Vec<String>, items: &Vec<String>)
    ensures
        all_chars(final(r)@) == all_chars(old(r)@) + all_chars(items@),
{
    let ghost start = r@;
    let mut i: usize = 0;
    while i < items.len()
        invariant
            i <= items@.len(),
            r@ == start + items@.subrange(0, i as int),
        decreases items@.len() - i,
    {
        r.push(items[i].clone());
        assert(r@ =~= start + items@.subrange(0, i + 1));
        i = i + 1;
    }
    assert(items@.subrange(0, items@.len() as int) =~= items@);
    proof {
        lemma_all_chars_concat(start, items@);
    }
}

fn push_text(r: &mut Vec<String>, s: String)
    ensures
        all_chars(final(r)@) == all_chars(old(r)@).push(s@),
{
    r.push(s);
    assert(all_chars(r@) =~= all_chars(old(r)@).push(s@));
}

/// The arguments of `docker` that run `image` for `environment`, from the
/// tokens that the user gave.
pub fn run_arguments(config: &Config, environment: &str, image: &str, tokens: &Vec<String>) -> (r:
    Vec<String>)
    requires
        config.wf(),
    ensures
        all_chars(r@) == run_command(*config, environment@, image@, tokens@),
{
    let mut r: Vec<String> = Vec::new();
    assert(all_chars(r@) =~= Seq::<Seq<char>>::empty());
    push_text(&mut r, String::from_str("run"));
    if tokens.len() == 0 {
        let ports = resolve(config, environment).ports;
        let n = ports.len();
        let mut i: usize = 0;
        assert(publish_flags(ports@.subrange(0, 0)) =~= Seq::<Seq<char>>::empty());
        assert(all_chars(r@) =~= seq!["run"@] + publish_flags(ports@.subrange(0, 0)));
        while i < n
            invariant
                n == ports@.len(),
                i <= n,
                all_chars(r@) == seq!["run"@] + publish_flags(ports@.subrange(0, i as int)),
            decreases n - i,
        {
            let ghost before = all_chars(r@);
            push_text(&mut r, String::from_str("-p"));
            push_text(&mut r, port_mapping(ports[i]));
            let ghost next = ports@.subrange(0, i + 1);
            assert(next.drop_last() =~= ports@.subrange(0, i as int));
            assert(all_chars(r@) =~= seq!["run"@] + publish_flags(next));
            i = i + 1;
        }
        assert(ports@.subrange(0, n as int) =~= ports@);
        push_text(&mut r, String::from_str("-it"));
        push_text(&mut r, image.to_owned());
        assert(all_chars(r@) =~= run_command(*config, environment@, image@, tokens@));
    } else {
        let (options, command) = classify_run_args(tokens);
        push_all(&mut r, &options);
        push_text(&mut r, image.to_owned());
        push_all(&mut r, &command);
        assert(all_chars(r@) =~= run_command(*config, environment@, image@, tokens@));
    }
    r
}

/// The arguments of `docker` that build `image` from `dockerfile`, with the
/// user's extra arguments before the build context `.`.
pub fn build_arguments(image: &str, dockerfile: &str, extra_args: &Vec<String>) -> (r: Vec<
    String,
>)
    ensures
        all_chars(r@) == seq!["build"@, "-t"@, image@, "-f"@, dockerfile@] + all_chars(
            extra_args@,
        ) + seq!["."@],
{
    let mut r: Vec<String> = Vec::new();
    assert(all_chars(r@) =~= Seq::<Seq<char>>::empty());
    push_text(&mut r, String::from_str("build"));
    push_text(&mut r, String::from_str("-t"));
    push_text(&mut r, image.to_owned());
    push_text(&mut r, String::from_str("-f"));
    push_text(&mut r, dockerfile.to_owned());
    push_all(&mut r, extra_args);
    push_text(&mut r, String::from_str("."));
    assert(all_chars(r@) =~= seq!["build"@, "-t"@, image@, "-f"@, dockerfile@] + all_chars(
        extra_args@,
    ) + seq!["."@]);
    r
}

} // verus!
