use eg::election_manifest::{Contest, ContestOption};
use eg::example_election_manifest::example_election_manifest;

#[test]
fn example_manifest_has_ten_contests() {
    let manifest = example_election_manifest();
    assert_eq!(manifest.contests.len(), 10);
    let options: Vec<usize> = manifest.contests.iter().map(|c| c.options.len()).collect();
    assert_eq!(options, vec![2, 4, 3, 3, 11, 2, 2, 2, 2, 2]);
    let limits: Vec<usize> = manifest.contests.iter().map(|c| c.selection_limit).collect();
    assert_eq!(limits, vec![1, 1, 1, 1, 3, 1, 1, 1, 1, 1]);
}

#[test]
fn example_manifest_labels() {
    let manifest = example_election_manifest();
    assert_eq!(
        manifest.contests[0].label,
        "For President and Vice President of The United Realms of Imaginaria"
    );
    assert_eq!(
        manifest.contests[0].options[0].label,
        "Thündéroak, Vâlêriana D.\nËverbright, Ålistair R. Jr.\n(Ætherwïng)"
    );
    assert_eq!(manifest.contests[4].options[10].label, "Elysêa Shadowbinder\n(Independent)");
    assert_eq!(
        manifest.contests[5].label,
        "Proposed Amendment No. 1\nEqual Representation for Technological and Magical Profeſsions"
    );
    assert_eq!(
        manifest.contests[9],
        Contest {
            label: "Silvërspîre County Register of Deeds Sébastian Moonglôw to be retained"
                .to_string(),
            selection_limit: 1,
            options: vec![
                ContestOption { label: "Retain".to_string() },
                ContestOption { label: "Remove".to_string() },
            ],
        }
    );
}

#[test]
fn example_manifest_referendums_share_their_options() {
    let manifest = example_election_manifest();
    let referendum = vec![
        ContestOption { label: "Prō".to_string() },
        ContestOption { label: "Ĉontrá".to_string() },
    ];
    for at in [6usize, 7, 8] {
        assert_eq!(manifest.contests[at].options, referendum);
    }
    assert_eq!(
        manifest.contests[6].label,
        "Privacy Protection in Techno-Magical Communications Act"
    );
    assert_eq!(
        manifest.contests[7].label,
        "Public Transport Modernization and Enchantment Proposal"
    );
    assert_eq!(manifest.contests[8].label, "Renewable Ætherwind Infrastructure Initiative");
    assert_eq!(example_election_manifest(), manifest);
}
