use assembly_matrix::model::{ResolvedGenome, Root};
use assembly_matrix::resolver::{
    listing_line, ncbi_get_assembly_path, resolve_all, resolve_genome, resolve_path, sanitize_name,
};
use assembly_matrix::text::spaces_to_underscores;

fn record(accession: &str, assembly_name: &str, organism_name: &str) -> Root {
    let mut root = Root::default();
    root.accession = accession.to_string();
    root.assembly_info.assembly_name = assembly_name.to_string();
    root.organism.organism_name = organism_name.to_string();
    root
}

#[test]
fn test_sanitize_name() {
    assert_eq!(
        sanitize_name(&"Trissoscelio sp. ZL-2020".to_string()),
        "Trissoscelio_sp_ZL_2020".to_string()
    );
}

#[test]
fn sanitize_name_output_is_clean() {
    let names = [
        "Trissoscelio sp. ZL-2020",
        "Homo sapiens",
        "a.b.c",
        " - . ",
        "Escherichia coli str. K-12 substr. MG1655",
        "x",
    ];
    for name in names {
        let out = sanitize_name(name);
        assert!(!out.contains(' '), "{:?}", out);
        assert!(!out.contains('.'), "{:?}", out);
        assert!(!out.contains('-'), "{:?}", out);
    }
}

#[test]
fn sanitize_name_does_not_collapse_underscores() {
    assert_eq!(sanitize_name("a .-b"), "a__b");
    assert_eq!(sanitize_name("a - b"), "a___b");
    assert_eq!(sanitize_name("a_ b"), "a__b");
}

#[test]
fn sanitize_name_edge_cases() {
    assert_eq!(sanitize_name(""), "");
    assert_eq!(sanitize_name("..."), "");
    assert_eq!(sanitize_name("   "), "___");
    assert_eq!(sanitize_name("---"), "___");
    assert_eq!(sanitize_name("Zea_mays"), "Zea_mays");
    assert_eq!(sanitize_name("Caf\u{e9} au-lait."), "Caf\u{e9}_au_lait");
}

#[test]
fn sanitize_name_twice_is_once() {
    let once = sanitize_name("Trissoscelio sp. ZL-2020");
    assert_eq!(sanitize_name(&once), once);
}

#[test]
fn sanitize_name_matches_three_replacements() {
    let names = ["Trissoscelio sp. ZL-2020", "a. -b", "-. .-", "plain"];
    for name in names {
        let expected = name.to_string().replace(" ", "_").replace(".", "").replace("-", "_");
        assert_eq!(sanitize_name(name), expected);
    }
}

#[test]
fn resolve_path_example() {
    assert_eq!(
        resolve_path("/data/root", "GCA_022816945.1", "ASM2281694v1"),
        "/data/root/data/GCA_022816945.1/GCA_022816945.1_ASM2281694v1_genomic.fna"
    );
}

#[test]
fn resolve_path_replaces_only_spaces() {
    assert_eq!(
        resolve_path("r", "GCA_1.1", "My asm v1.2-b"),
        "r/data/GCA_1.1/GCA_1.1_My_asm_v1.2-b_genomic.fna"
    );
    assert_eq!(resolve_path("", "", ""), "/data//__genomic.fna");
}

#[test]
fn spaces_to_underscores_values() {
    assert_eq!(spaces_to_underscores("a b  c"), "a_b__c");
    assert_eq!(spaces_to_underscores("a.b-c"), "a.b-c");
    assert_eq!(spaces_to_underscores(""), "");
}

#[test]
fn assembly_path_of_a_record() {
    let root = record("GCA_022816945.1", "ASM2281694v1", "Trissoscelio sp. ZL-2020");
    assert_eq!(
        ncbi_get_assembly_path("/data/root", &root),
        "/data/root/data/GCA_022816945.1/GCA_022816945.1_ASM2281694v1_genomic.fna"
    );
}

#[test]
fn resolve_genome_gives_name_and_path() {
    let root = record("GCA_1", "asm one", "Homo sapiens");
    let genome = resolve_genome("/g", &root);
    assert_eq!(
        genome,
        ResolvedGenome {
            display_name: "Homo_sapiens".to_string(),
            file_path: "/g/data/GCA_1/GCA_1_asm_one_genomic.fna".to_string(),
        }
    );
}

#[test]
fn resolve_all_keeps_the_order() {
    let records = vec![
        record("GCA_2", "b", "Second one"),
        record("GCA_1", "a", "First-one"),
        record("GCA_3", "c", "Third."),
    ];
    let genomes = resolve_all("/g", &records);
    let names: Vec<&str> = genomes.iter().map(|g| g.display_name.as_str()).collect();
    assert_eq!(names, vec!["Second_one", "First_one", "Third"]);
    let paths: Vec<&str> = genomes.iter().map(|g| g.file_path.as_str()).collect();
    assert_eq!(
        paths,
        vec![
            "/g/data/GCA_2/GCA_2_b_genomic.fna",
            "/g/data/GCA_1/GCA_1_a_genomic.fna",
            "/g/data/GCA_3/GCA_3_c_genomic.fna",
        ]
    );
    assert!(resolve_all("/g", &Vec::new()).is_empty());
}

#[test]
fn listing_line_is_name_space_path() {
    let genome = ResolvedGenome { display_name: "A_b".to_string(), file_path: "/x/y.fna".to_string() };
    assert_eq!(listing_line(&genome), "A_b /x/y.fna");
}

#[test]
fn usable_records_have_the_three_fields() {
    assert!(record("GCA_1", "a", "b").is_usable());
    assert!(!record("", "a", "b").is_usable());
    assert!(!record("GCA_1", "", "b").is_usable());
    assert!(!record("GCA_1", "a", "").is_usable());
    assert!(!Root::default().is_usable());
}
