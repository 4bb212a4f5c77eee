use assembly_matrix::gate::{existence_gate, missing_file_message, MissingFileError};
use assembly_matrix::ingest::{Ingestion, ParseError};
use assembly_matrix::model::{ResolvedGenome, Root};

fn genome(name: &str, path: &str) -> ResolvedGenome {
    ResolvedGenome { display_name: name.to_string(), file_path: path.to_string() }
}

#[test]
fn gate_reports_exactly_the_missing_file() {
    let genomes = vec![genome("a", "A"), genome("b", "B"), genome("c", "C")];
    let result = existence_gate(&genomes, &vec![true, false, true]);
    assert_eq!(result, Err(MissingFileError { paths: vec!["B".to_string()] }));
}

#[test]
fn gate_passes_when_all_are_present() {
    let genomes = vec![genome("a", "A"), genome("b", "B"), genome("c", "C")];
    let result = existence_gate(&genomes, &vec![true, true, true]);
    assert_eq!(result, Ok(vec!["A".to_string(), "B".to_string(), "C".to_string()]));
}

#[test]
fn gate_reports_every_gap_in_order() {
    let genomes = vec![genome("a", "A"), genome("b", "B"), genome("c", "C"), genome("d", "D")];
    let result = existence_gate(&genomes, &vec![false, true, false, false]);
    assert_eq!(
        result,
        Err(MissingFileError { paths: vec!["A".to_string(), "C".to_string(), "D".to_string()] })
    );
}

#[test]
fn gate_on_an_empty_list_passes() {
    assert_eq!(existence_gate(&Vec::new(), &Vec::new()), Ok(Vec::new()));
}

#[test]
fn gate_reports_a_path_once_per_genome() {
    let genomes = vec![genome("a", "A"), genome("b", "A")];
    let result = existence_gate(&genomes, &vec![false, false]);
    assert_eq!(result, Err(MissingFileError { paths: vec!["A".to_string(), "A".to_string()] }));
}

#[test]
fn missing_file_message_text() {
    assert_eq!(missing_file_message("/x/y.fna"), "File /x/y.fna does not exist");
    assert_eq!(missing_file_message(""), "File  does not exist");
}

fn usable(accession: &str) -> Root {
    let mut root = Root::default();
    root.accession = accession.to_string();
    root.assembly_info.assembly_name = "asm".to_string();
    root.organism.organism_name = "Homo sapiens".to_string();
    root
}

#[test]
fn usable_records_are_accepted() {
    let mut ingestion = Ingestion::new();
    assert_eq!(ingestion.last(), None);
    assert_eq!(ingestion.accept_usable(Ok(usable("GCA_1"))), Ok(()));
    assert_eq!(ingestion.accept_usable(Ok(usable("GCA_2"))), Ok(()));
    assert_eq!(ingestion.last(), Some(&usable("GCA_2")));
    assert_eq!(ingestion.into_records(), vec![usable("GCA_1"), usable("GCA_2")]);
}

#[test]
fn unusable_records_are_turned_away_with_their_index() {
    let mut ingestion = Ingestion::new();
    assert_eq!(ingestion.accept_usable(Ok(usable("GCA_1"))), Ok(()));
    let mut nameless = usable("GCA_2");
    nameless.organism.organism_name = String::new();
    assert_eq!(
        ingestion.accept_usable(Ok(nameless)),
        Err(ParseError {
            index: 1,
            message: "accession, assembly name or organism name is empty".to_string(),
        })
    );
    assert_eq!(ingestion.accept_usable(Ok(usable(""))).unwrap_err().index, 1);
    assert_eq!(ingestion.accept_usable(Ok(Root::default())).unwrap_err().index, 1);
    assert_eq!(ingestion.count(), 1);
    assert_eq!(ingestion.last(), Some(&usable("GCA_1")));
}

#[test]
fn undecoded_records_are_turned_away_with_their_index() {
    let mut ingestion = Ingestion::new();
    for i in 0..3 {
        assert_eq!(ingestion.accept_usable(Ok(usable(&format!("GCA_{}", i)))), Ok(()));
    }
    assert_eq!(
        ingestion.accept_usable(Err("expected value at line 4 column 1".to_string())),
        Err(ParseError { index: 3, message: "expected value at line 4 column 1".to_string() })
    );
    assert_eq!(ingestion.count(), 3);
}

fn named(accession: &str) -> Root {
    let mut root = Root::default();
    root.accession = accession.to_string();
    root
}

#[test]
fn ingestion_keeps_records_in_order() {
    let mut ingestion = Ingestion::new();
    assert_eq!(ingestion.count(), 0);
    assert_eq!(ingestion.accept(Ok(named("GCA_1"))), Ok(()));
    assert_eq!(ingestion.accept(Ok(named("GCA_2"))), Ok(()));
    assert_eq!(ingestion.count(), 2);
    let records = ingestion.into_records();
    assert_eq!(records, vec![named("GCA_1"), named("GCA_2")]);
}

#[test]
fn ingestion_names_the_record_that_failed() {
    let mut ingestion = Ingestion::new();
    for i in 0..3 {
        assert_eq!(ingestion.accept(Ok(named(&format!("GCA_{}", i)))), Ok(()));
    }
    let failure = ingestion.accept(Err("expected value at line 4 column 1".to_string()));
    assert_eq!(
        failure,
        Err(ParseError { index: 3, message: "expected value at line 4 column 1".to_string() })
    );
    assert_eq!(ingestion.count(), 3);
}

#[test]
fn ingestion_failure_on_the_first_record() {
    let mut ingestion = Ingestion::new();
    assert_eq!(
        ingestion.accept(Err("eof".to_string())),
        Err(ParseError { index: 0, message: "eof".to_string() })
    );
    assert!(ingestion.into_records().is_empty());
}
