//! An example election manifest, for tests and demonstrations.

use vstd::prelude::*;
use crate::election_manifest::{Contest, ContestOption, ContestView, ElectionManifest};

verus! {

/// The options of a referendum, as the example manifest has them.
pub open spec fn referendum_options_view() -> Seq<Seq<char>> {
    seq!["Prō"@, "Ĉontrá"@]
}

/// What the example election manifest holds: its contests in order, each with its label,
/// its selection limit and the labels of its options.
pub open spec fn example_election_manifest_view() -> Seq<ContestView> {
    seq![
        ContestView {
            label: "For President and Vice President of The United Realms of Imaginaria"@,
            selection_limit: 1,
            options: seq![
                "Thündéroak, Vâlêriana D.\nËverbright, Ålistair R. Jr.\n(Ætherwïng)"@,
                "Stârførge, Cássánder A.\nMøonfire, Célestïa L.\n(Crystâlheärt)"@,
            ],
        },
        ContestView {
            label: "Minister of Arcane Sciences"@,
            selection_limit: 1,
            options: seq![
                "Élyria Moonshadow\n(Crystâlheärt)"@,
                "Archímedes Darkstone\n(Ætherwïng)"@,
                "Seraphína Stormbinder\n(Independent)"@,
                "Gávrïel Runëbørne\n(Stärsky)"@,
            ],
        },
        ContestView {
            label: "Minister of Elemental Resources"@,
            selection_limit: 1,
            options: seq![
                "Tïtus Stormforge\n(Ætherwïng)"@,
                "Fæ Willowgrove\n(Crystâlheärt)"@,
                "Tèrra Stonebinder\n(Independent)"@,
            ],
        },
        ContestView {
            label: "Minister of Dance"@,
            selection_limit: 1,
            options: seq![
                "Äeliana Sunsong\n(Crystâlheärt)"@,
                "Thâlia Shadowdance\n(Ætherwïng)"@,
                "Jasper Moonstep\n(Stärsky)"@,
            ],
        },
        ContestView {
            label: "Gränd Cøuncil of Arcáne and Technomägical Affairs"@,
            selection_limit: 3,
            options: seq![
                "Ìgnatius Gearsøul\n(Crystâlheärt)"@,
                "Èlena Wîndwhisper\n(Technocrat)"@,
                "Bërnard Månesworn\n(Ætherwïng)"@,
                "Èmeline Glîmmerwillow\n(Ætherwïng)"@,
                "Nikólai Thunderstrîde\n(Independent)"@,
                "Lïliana Fîrestone\n(Pęacemaker)"@,
                "Émeric Crystálgaze\n(Førestmíst)"@,
                "Séraphine Lùmenwing\n(Stärsky)"@,
                "Rãfael Stëamheart\n(Ætherwïng)"@,
                "Océane Tidecaller\n(Pęacemaker)"@,
                "Elysêa Shadowbinder\n(Independent)"@,
            ],
        },
        ContestView {
            label: "Proposed Amendment No. 1\nEqual Representation for Technological and Magical Profeſsions"@,
            selection_limit: 1,
            options: seq![
                "For"@,
                "Against"@,
            ],
        },
        ContestView {
            label: "Privacy Protection in Techno-Magical Communications Act"@,
            selection_limit: 1,
            options: referendum_options_view(),
        },
        ContestView {
            label: "Public Transport Modernization and Enchantment Proposal"@,
            selection_limit: 1,
            options: referendum_options_view(),
        },
        ContestView {
            label: "Renewable Ætherwind Infrastructure Initiative"@,
            selection_limit: 1,
            options: referendum_options_view(),
        },
        ContestView {
            label: "Silvërspîre County Register of Deeds Sébastian Moonglôw to be retained"@,
            selection_limit: 1,
            options: seq![
                "Retain"@,
                "Remove"@,
            ],
        },
    ]
}

/// A contest option with the label `label`.
fn contest_option(label: &str) -> (res: ContestOption)
    ensures
        res@ == label@,
{
    ContestOption { label: label.to_owned() }
}

/// A contest with the label `label`, the selection limit `selection_limit` and the
/// options `options`.
fn contest(label: &str, selection_limit: usize, options: Vec<ContestOption>) -> (res: Contest)
    ensures
        res@ == (ContestView {
            label: label@,
            selection_limit: selection_limit as nat,
            options: options.deep_view(),
        }),
{
    Contest { label: label.to_owned(), selection_limit, options }
}

/// The options of a referendum.
fn referendum_options() -> (res: Vec<ContestOption>)
    ensures
        res.deep_view() == referendum_options_view(),
{
    let mut options: Vec<ContestOption> = Vec::new();
    options.push(contest_option("Prō"));
    options.push(contest_option("Ĉontrá"));
    assert(options.deep_view() =~= referendum_options_view());
    options
}

/// The example election manifest.
pub fn example_election_manifest() -> (res: ElectionManifest)
    ensures
        res@ == example_election_manifest_view(),
{
    let mut contests: Vec<Contest> = Vec::new();

    let mut options: Vec<ContestOption> = Vec::new();
    options.push(contest_option("Thündéroak, Vâlêriana D.\nËverbright, Ålistair R. Jr.\n(Ætherwïng)"));
    options.push(contest_option("Stârførge, Cássánder A.\nMøonfire, Célestïa L.\n(Crystâlheärt)"));
    assert(options.deep_view() =~= example_election_manifest_view()[0].options);
    contests.push(contest(
        "For President and Vice President of The United Realms of Imaginaria",
        1,
        options,
    ));

    let mut options: Vec<ContestOption> = Vec::new();
    options.push(contest_option("Élyria Moonshadow\n(Crystâlheärt)"));
    options.push(contest_option("Archímedes Darkstone\n(Ætherwïng)"));
    options.push(contest_option("Seraphína Stormbinder\n(Independent)"));
    options.push(contest_option("Gávrïel Runëbørne\n(Stärsky)"));
    assert(options.deep_view() =~= example_election_manifest_view()[1].options);
    contests.push(contest(
        "Minister of Arcane Sciences",
        1,
        options,
    ));

    let mut options: Vec<ContestOption> = Vec::new();
    options.push(contest_option("Tïtus Stormforge\n(Ætherwïng)"));
    options.push(contest_option("Fæ Willowgrove\n(Crystâlheärt)"));
    options.push(contest_option("Tèrra Stonebinder\n(Independent)"));
    assert(options.deep_view() =~= example_election_manifest_view()[2].options);
    contests.push(contest(
        "Minister of Elemental Resources",
        1,
        options,
    ));

    let mut options: Vec<ContestOption> = Vec::new();
    options.push(contest_option("Äeliana Sunsong\n(Crystâlheärt)"));
    options.push(contest_option("Thâlia Shadowdance\n(Ætherwïng)"));
    options.push(contest_option("Jasper Moonstep\n(Stärsky)"));
    assert(options.deep_view() =~= example_election_manifest_view()[3].options);
    contests.push(contest(
        "Minister of Dance",
        1,
        options,
    ));

    let mut options: Vec<ContestOption> = Vec::new();
    options.push(contest_option("Ìgnatius Gearsøul\n(Crystâlheärt)"));
    options.push(contest_option("Èlena Wîndwhisper\n(Technocrat)"));
    options.push(contest_option("Bërnard Månesworn\n(Ætherwïng)"));
    options.push(contest_option("Èmeline Glîmmerwillow\n(Ætherwïng)"));
    options.push(contest_option("Nikólai Thunderstrîde\n(Independent)"));
    options.push(contest_option("Lïliana Fîrestone\n(Pęacemaker)"));
    options.push(contest_option("Émeric Crystálgaze\n(Førestmíst)"));
    options.push(contest_option("Séraphine Lùmenwing\n(Stärsky)"));
    options.push(contest_option("Rãfael Stëamheart\n(Ætherwïng)"));
    options.push(contest_option("Océane Tidecaller\n(Pęacemaker)"));
    options.push(contest_option("Elysêa Shadowbinder\n(Independent)"));
    assert(options.deep_view() =~= example_election_manifest_view()[4].options);
    contests.push(contest(
        "Gränd Cøuncil of Arcáne and Technomägical Affairs",
        3,
        options,
    ));

    let mut options: Vec<ContestOption> = Vec::new();
    options.push(contest_option("For"));
    options.push(contest_option("Against"));
    assert(options.deep_view() =~= example_election_manifest_view()[5].options);
    contests.push(contest(
        "Proposed Amendment No. 1\nEqual Representation for Technological and Magical Profeſsions",
        1,
        options,
    ));

    let options = referendum_options();
    contests.push(contest(
        "Privacy Protection in Techno-Magical Communications Act",
        1,
        options,
    ));

    let options = referendum_options();
    contests.push(contest(
        "Public Transport Modernization and Enchantment Proposal",
        1,
        options,
    ));

    let options = referendum_options();
    contests.push(contest(
        "Renewable Ætherwind Infrastructure Initiative",
        1,
        options,
    ));

    let mut options: Vec<ContestOption> = Vec::new();
    options.push(contest_option("Retain"));
    options.push(contest_option("Remove"));
    assert(options.deep_view() =~= example_election_manifest_view()[9].options);
    contests.push(contest(
        "Silvërspîre County Register of Deeds Sébastian Moonglôw to be retained",
        1,
        options,
    ));

    let res = ElectionManifest { contests };
    assert(res@ =~= example_election_manifest_view());
    res
}

} // verus!
