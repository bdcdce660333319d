use package_db::{
    DatabaseThing, Opening, PackageIssueFiled, PackageNew, PackageState, Repository, StoreState,
};
use ron::ser::{to_string_pretty, PrettyConfig};
use serde::ser::{Serialize, SerializeStruct, Serializer};

/// Renders the library's types field by field, under the names they have.
struct Shown<'a, T>(&'a T);

impl Serialize for Shown<'_, Repository> {
    fn serialize<S: Serializer>(&self, serializer: S) -> Result<S::Ok, S::Error> {
        let mut out = serializer.serialize_struct("Repository", 2)?;
        out.serialize_field("kind", &self.0.kind)?;
        out.serialize_field("url", &self.0.url)?;
        out.end()
    }
}

impl Serialize for Shown<'_, PackageNew> {
    fn serialize<S: Serializer>(&self, serializer: S) -> Result<S::Ok, S::Error> {
        let mut out = serializer.serialize_struct("PackageNew", 4)?;
        out.serialize_field("name", &self.0.name)?;
        out.serialize_field("repository", &Shown(&self.0.repository))?;
        out.serialize_field("downloads", &self.0.downloads)?;
        out.serialize_field("stargazers", &self.0.stargazers)?;
        out.end()
    }
}

impl Serialize for Shown<'_, PackageIssueFiled> {
    fn serialize<S: Serializer>(&self, serializer: S) -> Result<S::Ok, S::Error> {
        let mut out = serializer.serialize_struct("PackageIssueFiled", 4)?;
        out.serialize_field("name", &self.0.name)?;
        out.serialize_field("repository", &self.0.repository)?;
        out.serialize_field("downloads", &self.0.downloads)?;
        out.serialize_field("stargazers", &self.0.stargazers)?;
        out.end()
    }
}

impl Serialize for Shown<'_, PackageState> {
    fn serialize<S: Serializer>(&self, serializer: S) -> Result<S::Ok, S::Error> {
        match self.0 {
            PackageState::New(package) => {
                serializer.serialize_newtype_variant("PackageState", 0, "New", &Shown(package))
            }
            PackageState::IssueFiled(package) => serializer.serialize_newtype_variant(
                "PackageState",
                1,
                "IssueFiled",
                &Shown(package),
            ),
        }
    }
}

impl Serialize for Shown<'_, StoreState> {
    fn serialize<S: Serializer>(&self, serializer: S) -> Result<S::Ok, S::Error> {
        let packages: Vec<Shown<PackageState>> = self.0.packages.iter().map(Shown).collect();
        let mut out = serializer.serialize_struct("StoreState", 2)?;
        out.serialize_field("saved_on_panic", &self.0.saved_on_panic)?;
        out.serialize_field("packages", &packages)?;
        out.end()
    }
}

fn layout() -> PrettyConfig {
    let config = DatabaseThing::pretty_config();
    PrettyConfig::new()
        .new_line(config.new_line)
        .indentor(config.indentor)
        .struct_names(config.struct_names)
}

fn render(state: &StoreState) -> String {
    to_string_pretty(&Shown(state), layout()).expect("a state renders")
}

fn sample() -> StoreState {
    StoreState {
        saved_on_panic: false,
        packages: vec![
            PackageState::New(PackageNew {
                name: "foo".to_string(),
                repository: Repository {
                    kind: "git".to_string(),
                    url: "https://example/foo".to_string(),
                },
                downloads: 10,
                stargazers: 2,
            }),
            PackageState::IssueFiled(PackageIssueFiled {
                name: "bär".to_string(),
                repository: ("git".to_string(), "https://example/bar".to_string()),
                downloads: 3,
                stargazers: 0,
            }),
        ],
    }
}

#[test]
fn the_empty_state_is_laid_out_with_tabs_and_names() {
    assert_eq!(
        render(&StoreState::new()),
        "StoreState(\n\tsaved_on_panic: false,\n\tpackages: [],\n)"
    );
}

#[test]
fn records_are_laid_out_with_their_stage_and_names() {
    let expected = [
        "StoreState(",
        "\tsaved_on_panic: false,",
        "\tpackages: [",
        "\t\tNew(PackageNew(",
        "\t\t\tname: \"foo\",",
        "\t\t\trepository: Repository(",
        "\t\t\t\tkind: \"git\",",
        "\t\t\t\turl: \"https://example/foo\",",
        "\t\t\t),",
        "\t\t\tdownloads: 10,",
        "\t\t\tstargazers: 2,",
        "\t\t)),",
        "\t\tIssueFiled(PackageIssueFiled(",
        "\t\t\tname: \"bär\",",
        "\t\t\trepository: (\"git\", \"https://example/bar\"),",
        "\t\t\tdownloads: 3,",
        "\t\t\tstargazers: 0,",
        "\t\t)),",
        "\t],",
        ")",
    ]
    .join("\n");
    assert_eq!(render(&sample()), expected);
}

#[test]
fn the_layout_has_no_carriage_return_and_no_space_indentation() {
    let text = render(&sample());
    assert!(!text.contains('\r'));
    assert!(text.lines().all(|line| !line.starts_with(' ')));
    assert!(text.contains("\n\t\t\t"));
}

#[test]
fn a_rendered_state_is_read_back_as_the_same_text() {
    let text = render(&sample());
    let loading = match DatabaseThing::new("state.ron", true) {
        Opening::Existing(loading) => loading,
        Opening::Missing(_) => panic!("the file was reported present"),
    };
    let parsing = loading.loaded(Ok(text.clone().into_bytes())).expect("read");
    assert_eq!(parsing.text(), &text);
}

#[test]
fn what_a_new_file_receives_is_the_rendered_empty_state() {
    let creating = match DatabaseThing::new("missing.ext", false) {
        Opening::Missing(creating) => creating,
        Opening::Existing(_) => panic!("the file was reported missing"),
    };
    let rendered = render(creating.data());
    let storing = creating.encoded(Ok(rendered)).expect("rendered");
    assert_eq!(storing.text(), "StoreState(\n\tsaved_on_panic: false,\n\tpackages: [],\n)");
}

#[test]
fn an_abnormal_teardown_shows_in_what_is_rendered() {
    let creating = match DatabaseThing::new("missing.ext", false) {
        Opening::Missing(creating) => creating,
        Opening::Existing(_) => panic!("the file was reported missing"),
    };
    let storing = creating.encoded(Ok(String::new())).expect("rendered");
    let mut db = storing.written(Ok(())).expect("written");
    db.teardown(true);
    assert_eq!(render(db.data()), "StoreState(\n\tsaved_on_panic: true,\n\tpackages: [],\n)");
    db.teardown(false);
    assert_eq!(render(db.data()), "StoreState(\n\tsaved_on_panic: false,\n\tpackages: [],\n)");
}
