//! The start-up arguments: how they fall into one group for the program
//! and one for each pipeline, and how pipelines without a name get one.

use vstd::prelude::*;
use vstd::string::StringExecFns;
use crate::command::{copy_texts, texts, PipelineSpec, PipelineSpecModel};
use crate::controller::spec_models;

verus! {

/// The text of the argument that opens the group of a pipeline.
pub open spec fn marker_text() -> Seq<char> {
    "--pipeline"@
}

/// The text of the name that a pipeline has until it is given one.
pub open spec fn default_name_text() -> Seq<char> {
    "pipeline_"@
}

/// The texts held by a sequence of groups of strings.
pub open spec fn group_texts(groups: Seq<Vec<String>>) -> Seq<Seq<Seq<char>>> {
    Seq::new(groups.len(), |i: int| texts(groups[i]@))
}

/// The groups into which the marker divides the arguments: a new group
/// starts after each marker, so there is one group more than there are
/// markers, and no group holds a marker.
pub open spec fn grouped(args: Seq<Seq<char>>) -> Seq<Seq<Seq<char>>>
    decreases args.len(),
{
    if args.len() == 0 {
        seq![Seq::<Seq<char>>::empty()]
    } else {
        let before = grouped(args.drop_last());
        if args.last() == marker_text() {
            before.push(Seq::<Seq<char>>::empty())
        } else {
            before.drop_last().push(before.last().push(args.last()))
        }
    }
}

/// The groups put together again, with a marker between each two.
pub open spec fn rejoined(groups: Seq<Seq<Seq<char>>>) -> Seq<Seq<char>>
    decreases groups.len(),
{
    if groups.len() == 0 {
        Seq::empty()
    } else if groups.len() == 1 {
        groups[0]
    } else {
        rejoined(groups.drop_last()) + seq![marker_text()] + groups.last()
    }
}

/// Grouping loses nothing and leaves no marker behind: there is at least
/// one group, no group holds a marker, and the groups with a marker put
/// back between each two are the arguments.
pub proof fn grouping_keeps_the_arguments(args: Seq<Seq<char>>)
    ensures
        grouped(args).len() >= 1,
        forall|g: int| 0 <= g < grouped(args).len() ==> !(#[trigger] grouped(args)[g]).contains(
            marker_text(),
        ),
        rejoined(grouped(args)) == args,
    decreases args.len(),
{
    let groups = grouped(args);
    if args.len() == 0 {
        assert(groups[0] =~= args);
    } else {
        let front = args.drop_last();
        let x = args.last();
        let before = grouped(front);
        grouping_keeps_the_arguments(front);
        assert(front.push(x) =~= args);
        if x == marker_text() {
            assert(groups.drop_last() =~= before);
            assert(rejoined(groups) =~= args);
            assert forall|g: int| 0 <= g < groups.len() implies !(#[trigger] groups[g]).contains(
                marker_text(),
            ) by {
                if g < before.len() {
                    assert(groups[g] == before[g]);
                }
            }
        } else {
            let grown = before.last().push(x);
            assert(groups.last() == grown);
            assert forall|g: int| 0 <= g < groups.len() implies !(#[trigger] groups[g]).contains(
                marker_text(),
            ) by {
                if g < before.len() - 1 {
                    assert(groups[g] == before[g]);
                } else {
                    assert(!before[before.len() - 1].contains(marker_text()));
                    if grown.contains(marker_text()) {
                        let k = choose|k: int| 0 <= k < grown.len() && grown[k] == marker_text();
                        if k < before.last().len() {
                            assert(before.last()[k] == marker_text());
                        }
                    }
                }
            }
            if before.len() == 1 {
                assert(rejoined(before) == before[0]);
                assert(groups[0] == grown);
                assert(rejoined(groups) =~= args);
            } else {
                assert(groups.drop_last() =~= before.drop_last());
                assert(rejoined(before) == rejoined(before.drop_last()) + seq![marker_text()]
                    + before.last());
                assert(rejoined(groups) =~= rejoined(before).push(x));
            }
        }
    }
}

/// The decimal digit of a number below ten.
pub open spec fn digit_char(d: nat) -> char {
    if d == 0 {
        '0'
    } else if d == 1 {
        '1'
    } else if d == 2 {
        '2'
    } else if d == 3 {
        '3'
    } else if d == 4 {
        '4'
    } else if d == 5 {
        '5'
    } else if d == 6 {
        '6'
    } else if d == 7 {
        '7'
    } else if d == 8 {
        '8'
    } else {
        '9'
    }
}

/// The decimal numeral of a number, without leading zeros.
pub open spec fn decimal_text(n: nat) -> Seq<char>
    decreases n,
{
    if n < 10 {
        seq![digit_char(n)]
    } else {
        decimal_text(n / 10).push(digit_char(n % 10))
    }
}

/// How many of the first `upto` specs have the default name.
pub open spec fn defaults_before(specs: Seq<PipelineSpecModel>, upto: int) -> nat
    decreases upto,
{
    if upto <= 0 {
        0
    } else {
        defaults_before(specs, upto - 1) + if specs[upto - 1].name == default_name_text() {
            1nat
        } else {
            0nat
        }
    }
}

/// The spec at index `i` once the default names are numbered: a spec with
/// the default name gets the default name followed by the number of specs
/// before it that had the default name too; every other spec stays.
pub open spec fn numbered_at(specs: Seq<PipelineSpecModel>, i: int) -> PipelineSpecModel {
    if specs[i].name == default_name_text() {
        PipelineSpecModel {
            name: default_name_text() + decimal_text(defaults_before(specs, i)),
            description: specs[i].description,
        }
    } else {
        specs[i]
    }
}

/// The specs once the default names are numbered.
pub open spec fn numbered(specs: Seq<PipelineSpecModel>) -> Seq<PipelineSpecModel> {
    Seq::new(specs.len(), |i: int| numbered_at(specs, i))
}

/// Divides the arguments into groups at each `--pipeline`. The first group
/// is that of the program; each further group describes one pipeline.
pub fn split_groups(args: &Vec<String>) -> (groups: Vec<Vec<String>>)
    ensures
        group_texts(groups@) == grouped(texts(args@)),
        groups.len() >= 1,
{
    let marker = String::from_str("--pipeline");
    let ghost all = texts(args@);
    let mut groups: Vec<Vec<String>> = Vec::new();
    let mut current: Vec<String> = Vec::new();
    let mut i: usize = 0;
    proof {
        assert(all.take(0).len() == 0);
        assert(texts(current@) =~= Seq::<Seq<char>>::empty());
        assert(group_texts(groups@).push(texts(current@)) =~= grouped(all.take(0)));
    }
    while i < args.len()
        invariant
            i <= args.len(),
            all == texts(args@),
            marker@ == marker_text(),
            group_texts(groups@).push(texts(current@)) == grouped(all.take(i as int)),
        decreases args.len() - i,
    {
        let ghost before = grouped(all.take(i as int));
        proof {
            assert(all.take(i + 1).drop_last() =~= all.take(i as int));
            assert(all.take(i + 1).last() == args@[i as int]@);
            assert(before.last() == texts(current@));
            assert(before.drop_last() =~= group_texts(groups@));
        }
        if args[i] == marker {
            groups.push(current);
            current = Vec::new();
            assert(group_texts(groups@) =~= before);
            assert(texts(current@) =~= Seq::<Seq<char>>::empty());
        } else {
            let ghost held = texts(current@);
            current.push(args[i].clone());
            assert(texts(current@) =~= held.push(args@[i as int]@));
        }
        i += 1;
    }
    assert(all.take(i as int) =~= all);
    let ghost held = group_texts(groups@);
    let ghost last = texts(current@);
    groups.push(current);
    assert(group_texts(groups@) =~= held.push(last));
    groups
}

/// The numeral of one digit.
fn digit_str(d: usize) -> (r: &'static str)
    requires
        d < 10,
    ensures
        r@ == seq![digit_char(d as nat)],
{
    proof {
        reveal_strlit("0");
        reveal_strlit("1");
        reveal_strlit("2");
        reveal_strlit("3");
        reveal_strlit("4");
        reveal_strlit("5");
        reveal_strlit("6");
        reveal_strlit("7");
        reveal_strlit("8");
        reveal_strlit("9");
    }
    let r = if d == 0 {
        "0"
    } else if d == 1 {
        "1"
    } else if d == 2 {
        "2"
    } else if d == 3 {
        "3"
    } else if d == 4 {
        "4"
    } else if d == 5 {
        "5"
    } else if d == 6 {
        "6"
    } else if d == 7 {
        "7"
    } else if d == 8 {
        "8"
    } else {
        "9"
    };
    assert(r@ =~= seq![digit_char(d as nat)]);
    r
}

/// The decimal numeral of a number.
pub fn decimal(n: usize) -> (s: String)
    ensures
        s@ == decimal_text(n as nat),
    decreases n,
{
    if n < 10 {
        String::from_str(digit_str(n))
    } else {
        let mut s = decimal(n / 10);
        s.append(digit_str(n % 10));
        assert(s@ =~= decimal_text(n as nat / 10).push(digit_char(n as nat % 10)));
        s
    }
}

/// Gives each pipeline that has the default name a name of its own: the
/// default name followed by a counter, which starts at zero and goes up by
/// one with each such pipeline. Pipelines that were named stay as they are.
pub fn assign_default_names(specs: &Vec<PipelineSpec>) -> (named: Vec<PipelineSpec>)
    ensures
        spec_models(named@) == numbered(spec_models(specs@)),
{
    let default_name = String::from_str("pipeline_");
    let ghost all = spec_models(specs@);
    let mut named: Vec<PipelineSpec> = Vec::new();
    let mut counter: usize = 0;
    let mut i: usize = 0;
    while i < specs.len()
        invariant
            i <= specs.len(),
            all == spec_models(specs@),
            default_name@ == default_name_text(),
            named.len() == i,
            counter == defaults_before(all, i as int),
            counter <= i,
            forall|j: int| 0 <= j < i ==> named@[j]@ == numbered_at(all, j),
        decreases specs.len() - i,
    {
        let spec = &specs[i];
        assert(spec@ == all[i as int]);
        if spec.name == default_name {
            let mut name = default_name.clone();
            let number = decimal(counter);
            name.append(number.as_str());
            named.push(PipelineSpec { name, description: copy_texts(&spec.description) });
            counter += 1;
        } else {
            named.push(spec.copy());
        }
        i += 1;
    }
    assert(spec_models(named@) =~= numbered(all));
    named
}

} // verus!
