use vstd::prelude::*;
use vstd::utf8::valid_utf8;
use crate::database_initializer::{
    step_spec, weather_path_spec, ActionModel, Effect, EventModel, JobModel, REGIONS_MAGIC,
    WEATHER_DIR,
};
use crate::database_initializer::data_files::{
    ascii_upper, bin_extension, byte_at, country_code_matches, country_suffix, decimal,
    digit_char, ends_with, name_text, weather_suffix_spec, Timepoint,
};

verus! {

/// A region file with the right first byte is read as holding, in its bytes
/// 1 to 4, its region count as a little-endian 32-bit number (a byte that
/// the file lacks counts as zero). The import announces that count as the
/// work of the region stage, reads that many records after the count, and,
/// where it is asked to stop at once, passes that count on as the number of
/// regions.
pub proof fn region_count_is_the_le_u32_after_the_header(d: Seq<u8>, cancelled: bool)
    requires
        d.len() >= 1,
        d[0] == REGIONS_MAGIC,
    ensures
        ({
            let c: int = byte_at(d, 1) + 256 * byte_at(d, 2) + 65536 * byte_at(d, 3) + 16777216
                * byte_at(d, 4);
            let r = step_spec(JobModel::AwaitRegions, cancelled, EventModel::FileRead(d));
            &&& 0 <= c < 0x1_0000_0000
            &&& !cancelled ==> (r.0 matches JobModel::Regions { data, count, next, .. } && data
                == d && count == c && next == 0)
            &&& !cancelled ==> r.1 == Effect::BeginStage(1, c as u32)
            &&& !cancelled ==> r.2 == ActionModel::Proceed
            &&& cancelled ==> (r.0 matches JobModel::AwaitTimepoints { region_count }
                && region_count == c)
        }),
        d.len() >= 5 && !cancelled ==> (step_spec(
            JobModel::AwaitRegions,
            cancelled,
            EventModel::FileRead(d),
        ).0 matches JobModel::Regions { pos, count, .. } && pos == 5 && count == d[1] + 256 * d[2]
            + 65536 * d[3] + 16777216 * d[4]),
{
}

/// The value of a string of decimal digits, most significant first.
pub open spec fn digits_value(s: Seq<char>) -> int
    decreases s.len(),
{
    if s.len() == 0 {
        0
    } else {
        10 * digits_value(s.drop_last()) + (s.last() as int - 48)
    }
}

/// The character of a decimal digit has the code of '0' plus the digit.
proof fn lemma_digit_char(d: int)
    requires
        0 <= d <= 9,
    ensures
        digit_char(d) as int == 48 + d,
{
}

/// `decimal(n)` is the decimal notation of `n`: one or more digits, whose
/// value is `n`, and with no leading zero unless `n` is zero.
pub proof fn decimal_is_the_notation_of_its_number(n: nat)
    ensures
        decimal(n).len() >= 1,
        forall|i: int| 0 <= i < decimal(n).len() ==> 48 <= #[trigger] decimal(n)[i] as int <= 57,
        digits_value(decimal(n)) == n,
        n > 0 ==> decimal(n)[0] != '0',
    decreases n,
{
    if n < 10 {
        lemma_digit_char(n as int);
        assert(decimal(n).drop_last() =~= Seq::<char>::empty());
        assert(digits_value(Seq::<char>::empty()) == 0);
        assert(decimal(n).last() == digit_char(n as int));
    } else {
        decimal_is_the_notation_of_its_number(n / 10);
        lemma_digit_char((n % 10) as int);
        let s = decimal(n);
        assert(s.drop_last() =~= decimal(n / 10));
        assert(s.last() == digit_char((n % 10) as int));
        assert(digits_value(s) == 10 * digits_value(decimal(n / 10)) + (n % 10));
        assert(n == 10 * (n / 10) + n % 10);
        assert forall|i: int| 0 <= i < s.len() implies 48 <= #[trigger] s[i] as int <= 57 by {
            if i < s.len() - 1 {
                assert(s[i] == decimal(n / 10)[i]);
            }
        }
        assert(s[0] == decimal(n / 10)[0]);
    }
}

/// The weather file of a time point whose month is below 100 is named by
/// the year in decimal, a dash, and the month in exactly two digits, tens
/// first; the path is the weather directory, that name, and ".bin".
pub proof fn weather_file_name_has_a_two_digit_month(t: Timepoint)
    requires
        t.1 < 100,
    ensures
        ({
            let s = weather_suffix_spec(t);
            let y = decimal(t.0 as nat);
            &&& s.len() == y.len() + 3
            &&& s.subrange(0, y.len() as int) == y
            &&& s[y.len() as int] == '-'
            &&& s[y.len() + 1int] as int == 48 + t.1 / 10
            &&& s[y.len() + 2int] as int == 48 + t.1 % 10
            &&& weather_path_spec(t) == WEATHER_DIR@ + s + ".bin"@
        }),
{
    let s = weather_suffix_spec(t);
    let y = decimal(t.0 as nat);
    decimal_is_the_notation_of_its_number(t.1 as nat);
    let m = decimal(t.1 as nat);
    reveal_strlit("-");
    if t.1 < 10 {
        lemma_digit_char(t.1 as int);
        assert(m.len() == 1);
        assert(s =~= y + seq!['-', '0', m[0]]);
    } else {
        decimal_is_the_notation_of_its_number((t.1 / 10) as nat);
        lemma_digit_char((t.1 / 10) as int);
        lemma_digit_char((t.1 % 10) as int);
        assert(decimal((t.1 / 10) as nat) =~= seq![digit_char((t.1 / 10) as int)]);
        assert(m =~= seq![digit_char((t.1 / 10) as int), digit_char((t.1 % 10) as int)]);
        assert(s =~= y + seq!['-'] + m);
    }
}

/// Upper-casing turns each ASCII lower-case letter into its upper-case
/// letter, 32 codes below it, and leaves every other byte as it is: no
/// lower-case letter is left, and no other byte is changed.
pub proof fn upper_casing_changes_exactly_the_lower_case_letters(b: u8)
    ensures
        97 <= b <= 122 ==> ascii_upper(b) as int == b - 32,
        !(97 <= b <= 122) ==> ascii_upper(b) == b,
        !(97 <= ascii_upper(b) <= 122),
        ascii_upper(b) != b <==> 97 <= b <= 122,
{
}

/// A country file whose name and code are text agrees with its code exactly
/// when the name ends with the code, each ASCII lower-case letter in it made
/// upper-case (32 codes lower) and every other byte kept, followed by ".bin".
pub proof fn country_name_must_end_with_the_upper_cased_code(name: Seq<u8>, code: Seq<u8>)
    requires
        valid_utf8(name),
        valid_utf8(code),
    ensures
        country_code_matches(name, code) <==> {
            &&& name.len() >= code.len() + 4
            &&& forall|i: int|
                0 <= i < code.len() ==> #[trigger] name[name.len() - code.len() - 4 + i] as int == (
                if 97 <= code[i] <= 122 {
                    code[i] - 32
                } else {
                    code[i] as int
                })
            &&& name[name.len() - 4] == 46u8
            &&& name[name.len() - 3] == 98u8
            &&& name[name.len() - 2] == 105u8
            &&& name[name.len() - 1] == 110u8
        },
{
    let suffix = country_suffix(code);
    let up = code.map_values(|b: u8| ascii_upper(b));
    assert(name_text(name) == name);
    assert(suffix == up + bin_extension());
    let n = name.len() as int;
    let k = code.len() as int;
    if country_code_matches(name, code) {
        let tail = name.subrange(n - (k + 4), n);
        assert(tail == suffix);
        assert forall|i: int| 0 <= i < k implies #[trigger] name[n - k - 4 + i] as int == (if 97
            <= code[i] <= 122 {
            code[i] - 32
        } else {
            code[i] as int
        }) by {
            assert(tail[i] == suffix[i]);
            assert(suffix[i] == up[i]);
        }
        assert(tail[k] == suffix[k]);
        assert(tail[k + 1] == suffix[k + 1]);
        assert(tail[k + 2] == suffix[k + 2]);
        assert(tail[k + 3] == suffix[k + 3]);
    }
    if ({
        &&& n >= k + 4
        &&& forall|i: int|
            0 <= i < k ==> #[trigger] name[n - k - 4 + i] as int == (if 97 <= code[i] <= 122 {
                code[i] - 32
            } else {
                code[i] as int
            })
        &&& name[n - 4] == 46u8
        &&& name[n - 3] == 98u8
        &&& name[n - 2] == 105u8
        &&& name[n - 1] == 110u8
    }) {
        let tail = name.subrange(n - (k + 4), n);
        assert forall|i: int| 0 <= i < k + 4 implies tail[i] == #[trigger] suffix[i] by {
            if i < k {
                assert(name[n - k - 4 + i] as int == (if 97 <= code[i] <= 122 {
                    code[i] - 32
                } else {
                    code[i] as int
                }));
            }
        }
        assert(tail =~= suffix);
    }
}

} // verus!
