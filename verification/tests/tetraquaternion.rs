use gravity_sim::math::tetraquaternion::{
    _to_mul_table_string, basis_element, basis_label, basis_name, cell_text, compute_mul_table,
    get_basis_index, mul_table_entry, quat_mul, QuatComp,
};

const UNITS: [QuatComp; 4] = [QuatComp::R, QuatComp::I, QuatComp::J, QuatComp::K];

#[test]
fn assert_table_correct() {
    let table = compute_mul_table();
    assert!(table[0][0] == (-1, 0));
    assert!(table[0][1] == (1, 5));
    assert!(table[1][2] == (-1, 10));
    assert!(table[4][5] == (-1, 10));
    assert!(table[7][8] == (1, 10));
    assert!(table[10][14] == (1, 1));
    assert!(table[11][12] == (-1, 10));
    assert!(table[14][14] == (-1, 0));
}

#[test]
fn test_basis_multiplication() {
    let table = compute_mul_table();
    let tests = [
        // (left, right, expected_sign, expected_basis)
        (0, 0, -1, 0),    // j * j = -1
        (0, 1, 1, 5),     // j * kI = +iI
        (1, 2, -1, 10),   // kI * kJ = -K
        (4, 5, -1, 10),   // iI * iJ = -K
        (7, 8, 1, 10),    // I * J = +K
        (10, 14, 1, 1),   // k * i = +j
        (11, 12, -1, 10), // jI * jJ = -K
        (14, 14, -1, 0),  // i * i = -1
        (0, 14, -1, 11),  // j * i = -jI
        (14, 0, 1, 11),   // i * j = +jI
    ];

    for (left, right, expected_sign, expected_basis) in tests {
        let entry = table[left][right];
        assert_eq!(
            entry,
            (expected_sign as i8, expected_basis),
            "Failed: basis[{}][{}] = {:?}, expected ({}, {})",
            left,
            right,
            entry,
            expected_sign,
            expected_basis
        );
    }
}

#[test]
fn test_mul_table_string() {
    let table_str = _to_mul_table_string();
    println!("\n{}", table_str);
    assert!(table_str.contains("j |  -1"));
    assert!(table_str.contains("+iI"));
    let lines: Vec<&str> = table_str.lines().collect();
    assert!(lines.len() >= 18, "Minimum 18 lines expected");
}

#[test]
fn quat_mul_real_unit_is_neutral() {
    for x in UNITS {
        assert_eq!(quat_mul(QuatComp::R, x), (1, x));
        assert_eq!(quat_mul(x, QuatComp::R), (1, x));
    }
}

#[test]
fn quat_mul_imaginary_units() {
    assert_eq!(quat_mul(QuatComp::I, QuatComp::I), (-1, QuatComp::R));
    assert_eq!(quat_mul(QuatComp::J, QuatComp::J), (-1, QuatComp::R));
    assert_eq!(quat_mul(QuatComp::K, QuatComp::K), (-1, QuatComp::R));
    assert_eq!(quat_mul(QuatComp::I, QuatComp::J), (1, QuatComp::K));
    assert_eq!(quat_mul(QuatComp::J, QuatComp::K), (1, QuatComp::I));
    assert_eq!(quat_mul(QuatComp::K, QuatComp::I), (1, QuatComp::J));
    assert_eq!(quat_mul(QuatComp::J, QuatComp::I), (-1, QuatComp::K));
    assert_eq!(quat_mul(QuatComp::K, QuatComp::J), (-1, QuatComp::I));
    assert_eq!(quat_mul(QuatComp::I, QuatComp::K), (-1, QuatComp::J));
}

#[test]
fn quat_mul_is_associative() {
    for a in UNITS {
        for b in UNITS {
            for c in UNITS {
                let (s1, ab) = quat_mul(a, b);
                let (s2, left) = quat_mul(ab, c);
                let (t1, bc) = quat_mul(b, c);
                let (t2, right) = quat_mul(a, bc);
                assert_eq!(left, right);
                assert_eq!(s1 * s2, t1 * t2);
            }
        }
    }
}

#[test]
fn basis_order_is_fixed() {
    assert_eq!(basis_element(0), (QuatComp::J, QuatComp::R));
    assert_eq!(basis_element(1), (QuatComp::K, QuatComp::I));
    assert_eq!(basis_element(6), (QuatComp::I, QuatComp::K));
    assert_eq!(basis_element(7), (QuatComp::R, QuatComp::I));
    assert_eq!(basis_element(10), (QuatComp::K, QuatComp::R));
    assert_eq!(basis_element(14), (QuatComp::I, QuatComp::R));
}

#[test]
fn basis_index_inverts_basis_order() {
    for index in 0..15 {
        let (s, l) = basis_element(index);
        assert_eq!(get_basis_index(s, l), index);
    }
    let mut seen = [false; 15];
    for s in UNITS {
        for l in UNITS {
            if s == QuatComp::R && l == QuatComp::R {
                continue;
            }
            let index = get_basis_index(s, l);
            assert!(index < 15);
            assert!(!seen[index]);
            seen[index] = true;
            assert_eq!(basis_element(index), (s, l));
        }
    }
}

#[test]
fn table_entries_are_signs_and_slots() {
    let table = compute_mul_table();
    for left in 0..15 {
        for right in 0..15 {
            let (sign, slot) = table[left][right];
            assert!(sign == 1 || sign == -1);
            assert!(slot <= 15);
            assert_eq!(mul_table_entry(left, right), (sign, slot));
        }
    }
}

#[test]
fn basis_elements_square_to_scalars() {
    let table = compute_mul_table();
    for index in 0..15 {
        let (s, l) = basis_element(index);
        let expected: i8 = if s == QuatComp::R || l == QuatComp::R { -1 } else { 1 };
        assert_eq!(table[index][index], (expected, 0));
    }
}

#[test]
fn basis_elements_commute_or_anticommute() {
    let table = compute_mul_table();
    for left in 0..15 {
        for right in 0..15 {
            assert_eq!(table[left][right].1, table[right][left].1);
        }
    }
    // j and i anticommute, j and I commute.
    assert_eq!(table[0][14].0, -table[14][0].0);
    assert_eq!(table[0][7], (1, 12));
    assert_eq!(table[7][0], (1, 12));
}

fn slot_mul(table: &[[(i8, usize); 15]; 15], a: usize, b: usize) -> (i8, usize) {
    if a == 0 {
        (1, b)
    } else if b == 0 {
        (1, a)
    } else {
        table[a - 1][b - 1]
    }
}

#[test]
fn table_multiplication_is_associative() {
    let table = compute_mul_table();
    for a in 0..16 {
        for b in 0..16 {
            for c in 0..16 {
                let (s1, ab) = slot_mul(&table, a, b);
                let (s2, left) = slot_mul(&table, ab, c);
                let (t1, bc) = slot_mul(&table, b, c);
                let (t2, right) = slot_mul(&table, a, bc);
                assert_eq!(left, right);
                assert_eq!(s1 * s2, t1 * t2);
            }
        }
    }
}

#[test]
fn labels_and_names() {
    let labels = [
        "j", "kI", "kJ", "kK", "iI", "iJ", "iK", "I", "J", "K", "k", "jI", "jJ", "jK", "i",
    ];
    let names = [
        " j ", "kI ", "kJ ", "kK ", "iI ", "iJ ", "iK ", " I ", " J ", " K ", " k ", "jI ", "jJ ",
        "jK ", " i ",
    ];
    for index in 0..15 {
        assert_eq!(basis_label(index), labels[index]);
        assert_eq!(basis_name(index), names[index]);
    }
}

#[test]
fn cells_are_four_wide() {
    assert_eq!(cell_text(1, 0), "  +1");
    assert_eq!(cell_text(-1, 0), "  -1");
    assert_eq!(cell_text(1, 1), "  +j");
    assert_eq!(cell_text(-1, 8), "  -I");
    assert_eq!(cell_text(1, 5), " +iI");
    assert_eq!(cell_text(-1, 14), " -jK");
    assert_eq!(cell_text(-1, 15), "  -i");
}

#[test]
fn table_text_lines() {
    let text = _to_mul_table_string();
    let lines: Vec<&str> = text.lines().collect();
    assert_eq!(lines.len(), 33);
    assert!(text.ends_with('\n'));
    let rule = "═".repeat(80);
    let separator = format!("───┼─{}", "─".repeat(75));
    assert_eq!(lines[0], rule);
    assert_eq!(lines[32], rule);
    assert_eq!(
        lines[1],
        "   |   j  kI  kJ  kK  iI  iJ  iK   I   J   K   k  jI  jJ  jK   i "
    );
    assert_eq!(
        lines[3],
        " j |  -1 +iI +iJ +iK -kI -kJ -kK +jI +jJ +jK  +i  -I  -J  -K  -k"
    );
    assert_eq!(
        lines[5],
        "kI | -iI  +1  -K  +J  -j +jK -jJ  -k +kK -kJ  -I  +i -iK +iJ +jI"
    );
    assert_eq!(
        lines[17],
        " I | +jI  -k +kK -kJ  -i +iK -iJ  -1  +K  -J +kI  -j +jK -jJ +iI"
    );
    assert_eq!(
        lines[31],
        " i |  +k -jI -jJ -jK  -I  -J  -K +iI +iJ +iK  -j +kI +kJ +kK  -1"
    );
    for row in 0..15 {
        assert_eq!(lines[2 + 2 * row], separator);
    }
    assert_eq!(text.chars().count(), 2418);
}

#[test]
fn rows_and_columns_hold_every_slot_once() {
    let table = compute_mul_table();
    for fixed in 0..16 {
        let mut in_row = [false; 16];
        let mut in_column = [false; 16];
        for other in 0..16 {
            let (_, right) = slot_mul(&table, fixed, other);
            let (_, left) = slot_mul(&table, other, fixed);
            assert!(!in_row[right]);
            assert!(!in_column[left]);
            in_row[right] = true;
            in_column[left] = true;
        }
    }
}
