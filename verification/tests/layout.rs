use supercollab::keys::AccountId;
use supercollab::project::Project;
use supercollab::state::ProjectState;

fn key(n: u64) -> AccountId {
    AccountId::from_words(n, n + 1, n + 2, n + 3)
}

fn push_u64_le(out: &mut Vec<u8>, n: u64) {
    for i in 0..8 {
        out.push(((n >> (8 * i)) & 0xff) as u8);
    }
}

fn push_key(out: &mut Vec<u8>, k: &AccountId) {
    push_u64_le(out, k.w0);
    push_u64_le(out, k.w1);
    push_u64_le(out, k.w2);
    push_u64_le(out, k.w3);
}

#[test]
fn space_of_empty_texts_is_fixed_len() {
    assert_eq!(Project::space(&Vec::new(), &Vec::new()), 129);
    assert_eq!(supercollab::project::FIXED_RECORD_LEN, 129);
}

#[test]
fn space_is_header_plus_prefixed_texts() {
    let name = b"Alpha".to_vec();
    let description = b"first project".to_vec();
    // 8 + 32 + (4 + 5) + (4 + 13) + 1 + 32 + 32 + 8 + 8
    assert_eq!(Project::space(&name, &description), 129 + 5 + 13);
    assert_eq!(Project::space(&name, &Vec::new()), 129 + 5);
}

#[test]
fn encoded_record_has_exactly_the_computed_size() {
    let p = Project {
        id: key(1),
        name: b"Alpha".to_vec(),
        description: b"first".to_vec(),
        state: ProjectState::Active,
        token_mint: key(10),
        creator: key(20),
        total_allocation: 1_000_000,
        created_at: 1_700_000_000,
    };
    let bytes = p.encode();
    assert_eq!(bytes.len(), Project::space(&p.name, &p.description));
}

#[test]
fn encoding_lays_fields_out_in_order() {
    let id = key(1);
    let mint = key(10);
    let creator = key(20);
    let p = Project {
        id,
        name: b"A".to_vec(),
        description: Vec::new(),
        state: ProjectState::Completed,
        token_mint: mint,
        creator,
        total_allocation: 1000,
        created_at: -1,
    };
    let mut expected: Vec<u8> = Vec::new();
    // tag: "PROJECT" and a zero byte
    expected.extend_from_slice(&[0x50, 0x52, 0x4F, 0x4A, 0x45, 0x43, 0x54, 0x00]);
    push_key(&mut expected, &id);
    expected.extend_from_slice(&[1, 0, 0, 0]); // name length prefix
    expected.push(b'A');
    expected.extend_from_slice(&[0, 0, 0, 0]); // description length prefix
    expected.push(1); // state tag: Completed
    push_key(&mut expected, &mint);
    push_key(&mut expected, &creator);
    expected.extend_from_slice(&[0xE8, 0x03, 0, 0, 0, 0, 0, 0]); // 1000
    expected.extend_from_slice(&[0xFF; 8]); // -1 in two's complement
    assert_eq!(p.encode(), expected);
}

#[test]
fn long_texts_are_sized_and_encoded_exactly() {
    let name = vec![b'x'; 10_000];
    let description = vec![b'y'; 70_000];
    assert_eq!(Project::space(&name, &description), 129 + 10_000 + 70_000);
    let p = Project {
        id: key(1),
        name,
        description,
        state: ProjectState::Cancelled,
        token_mint: key(10),
        creator: key(20),
        total_allocation: u64::MAX,
        created_at: i64::MIN,
    };
    let bytes = p.encode();
    assert_eq!(bytes.len(), 129 + 10_000 + 70_000);
    // the name length prefix is little-endian: 10_000 = 0x2710
    assert_eq!(&bytes[40..44], &[0x10, 0x27, 0, 0]);
    // the description prefix follows the name: 70_000 = 0x11170
    assert_eq!(&bytes[44 + 10_000..48 + 10_000], &[0x70, 0x11, 0x01, 0]);
}

#[test]
fn state_tags_are_distinct() {
    let mut p = Project {
        id: key(1),
        name: Vec::new(),
        description: Vec::new(),
        state: ProjectState::Active,
        token_mint: key(10),
        creator: key(20),
        total_allocation: 0,
        created_at: 0,
    };
    let active = p.encode();
    p.state = ProjectState::Completed;
    let completed = p.encode();
    p.state = ProjectState::Cancelled;
    let cancelled = p.encode();
    assert_eq!(active[48], 0);
    assert_eq!(completed[48], 1);
    assert_eq!(cancelled[48], 2);
    assert_ne!(active, completed);
    assert_ne!(completed, cancelled);
}
