//! Docker Hub image references and version numbers.

use core::cmp::Ordering;

use vstd::prelude::*;

use crate::admin::error::{AdminServiceError, ErrorView};
use crate::numbers::{all_digits, decimal, decimal_reads_back, parse_unsigned, read_u32};
use crate::text::{
    before, behind, chars_before, chars_behind, chars_have_space_or_control, chars_of,
    chars_start_with, has_space_or_control, index_of, index_of_char, index_of_facts, index_of_is,
    is_blank, is_control, is_digit, is_whitespace, leading_characters_are_stripped,
    leading_parts_are_stripped, parts_are_contained,
    parts_around, split, split_chars, starts_with, string_of, strip_leading, strip_leading_char,
    strip_leading_char_chars, strip_leading_chars, trim, trim_chars, trim_is_idempotent,
    trim_keeps_trimmed, trimming_takes_only_blanks,
};

verus! {

/// An image reference without the names of Docker Hub at its beginning.
pub open spec fn hub_path(value: Seq<char>) -> Seq<char> {
    strip_leading(strip_leading(value, "docker.io/"@), "registry-1.docker.io/"@)
}

/// Whether a trimmed reference is one to Docker Hub: it names the hub, or its
/// first segment is no host name.
pub open spec fn is_hub_reference(value: Seq<char>) -> bool {
    let host = before(value, '/');
    ||| starts_with(value, "docker.io/"@)
    ||| starts_with(value, "registry-1.docker.io/"@)
    ||| !host.contains('.') && !host.contains(':')
}

/// Whether a path has an owner and an image, and no empty segment.
pub open spec fn is_image_path(path: Seq<char>) -> bool {
    &&& split(path, '/').len() >= 2
    &&& forall|i: int|
        0 <= i < split(path, '/').len() ==> (#[trigger] split(path, '/')[i]).len() > 0
}

/// What is wrong with an image reference, if anything is.
pub open spec fn image_problem(image: Seq<char>) -> Option<Seq<char>> {
    let value = trim(image);
    if value.len() == 0 {
        Some("镜像地址不能为空"@)
    } else if has_space_or_control(value) {
        Some("镜像地址不能包含空白或控制字符"@)
    } else if !is_hub_reference(value) {
        Some(
            "在线更新只支持 Docker Hub 镜像（如 owner/image:tag 或 docker.io/owner/image:tag）"@,
        )
    } else if !is_image_path(hub_path(value)) {
        Some("Docker Hub 镜像需为 owner/image[:tag] 格式"@)
    } else {
        None
    }
}

fn invalid(message: &str) -> (r: Result<(), AdminServiceError>)
    ensures
        r matches Err(e) && e@ == ErrorView::Invalid(message@),
{
    Err(AdminServiceError::InvalidCredential(message.to_string()))
}

fn hub_path_chars(value: &[char]) -> (r: &[char])
    ensures
        r@ == hub_path(value@),
{
    let hub = chars_of("docker.io/");
    let registry = chars_of("registry-1.docker.io/");
    strip_leading_chars(strip_leading_chars(value, hub.as_slice()), registry.as_slice())
}

/// Checks a reference to a Docker Hub image.
pub fn validate_image_ref(image: &str) -> (r: Result<(), AdminServiceError>)
    ensures
        match image_problem(image@) {
            None => r is Ok,
            Some(message) => r matches Err(e) && e@ == ErrorView::Invalid(message),
        },
{
    let chars = chars_of(image);
    let value = trim_chars(chars.as_slice());
    if value.len() == 0 {
        return invalid("镜像地址不能为空");
    }
    if chars_have_space_or_control(value) {
        return invalid("镜像地址不能包含空白或控制字符");
    }
    let hub = chars_of("docker.io/");
    let registry = chars_of("registry-1.docker.io/");
    let host = chars_before(value, '/');
    let has_dot = index_of_char(host, '.') < host.len();
    let has_colon = index_of_char(host, ':') < host.len();
    proof {
        has_char_is_index_of(host@, '.');
        has_char_is_index_of(host@, ':');
    }
    if !chars_start_with(value, hub.as_slice()) && !chars_start_with(value, registry.as_slice())
        && (has_dot || has_colon) {
        return invalid(
            "在线更新只支持 Docker Hub 镜像（如 owner/image:tag 或 docker.io/owner/image:tag）",
        );
    }
    let path = hub_path_chars(value);
    let parts = split_chars(path, '/');
    let message = "Docker Hub 镜像需为 owner/image[:tag] 格式";
    if parts.len() < 2 {
        return invalid(message);
    }
    let mut i: usize = 0;
    while i < parts.len()
        invariant
            i <= parts.len(),
            parts@.len() == split(path@, '/').len(),
            forall|j: int| 0 <= j < parts@.len() ==> (#[trigger] parts@[j])@ == split(path@, '/')[j],
            forall|j: int| 0 <= j < i ==> (#[trigger] split(path@, '/')[j]).len() > 0,
            path@ == hub_path(value@),
            value@ == trim(image@),
            value@.len() > 0,
            !has_space_or_control(value@),
            is_hub_reference(value@),
            message@ == "Docker Hub 镜像需为 owner/image[:tag] 格式"@,
        decreases parts.len() - i,
    {
        if parts[i].len() == 0 {
            assert(split(path@, '/')[i as int].len() == 0);
            return invalid(message);
        }
        assert(split(path@, '/')[i as int] == parts@[i as int]@);
        i += 1;
    }
    Ok(())
}

proof fn has_char_is_index_of(s: Seq<char>, c: char)
    ensures
        s.contains(c) == (index_of(s, c) < s.len()),
{
    index_of_facts(s, c);
    if index_of(s, c) < s.len() {
        assert(s.contains(s[index_of(s, c) as int]));
    }
}

/// The part of an image reference that names the repository: without the names
/// of Docker Hub, the digest and the tag.
pub open spec fn repository_path(image: Seq<char>) -> Seq<char> {
    before(before(hub_path(trim(image)), '@'), ':')
}

/// The owner and the repository that an image reference names, if it names
/// exactly these two.
pub open spec fn owner_repo(image: Seq<char>) -> Option<(Seq<char>, Seq<char>)> {
    let parts = split(repository_path(image), '/');
    if parts.len() == 2 && parts[0].len() > 0 && parts[1].len() > 0 {
        Some((parts[0], parts[1]))
    } else {
        None
    }
}

/// Splits an image reference into owner and repository. The tag, the digest and
/// the name of Docker Hub in front do not matter.
pub fn dockerhub_owner_repo(image: &str) -> (r: Option<(String, String)>)
    ensures
        match r {
            Some((owner, repo)) => owner_repo(image@) == Some((owner@, repo@)),
            None => owner_repo(image@) is None,
        },
{
    let chars = chars_of(image);
    let path = hub_path_chars(trim_chars(chars.as_slice()));
    let name = chars_before(chars_before(path, '@'), ':');
    let parts = split_chars(name, '/');
    if parts.len() != 2 {
        return None;
    }
    assert(parts@[0]@ == split(name@, '/')[0]);
    assert(parts@[1]@ == split(name@, '/')[1]);
    if parts[0].len() == 0 || parts[1].len() == 0 {
        return None;
    }
    Some((string_of(parts[0]), string_of(parts[1])))
}

/// The part of a version that counts: without the letters `v` in front and
/// without a pre-release or build suffix.
pub open spec fn version_core(value: Seq<char>) -> Seq<char> {
    before(before(strip_leading_char(value, 'v'), '-'), '+')
}

/// One number of a version; what is no number counts as zero.
pub open spec fn version_number(part: Seq<char>) -> u32 {
    match parse_unsigned(part, u32::MAX as nat) {
        Some(n) => n as u32,
        None => 0,
    }
}

/// The major, minor and patch number of a version.
pub open spec fn version(value: Seq<char>) -> Seq<u32> {
    let core = version_core(value);
    seq![
        version_number(before(core, '.')),
        version_number(before(behind(core, '.'), '.')),
        version_number(behind(behind(core, '.'), '.')),
    ]
}

/// How two versions compare: by the first of their three numbers that differs.
pub open spec fn version_order(a: Seq<u32>, b: Seq<u32>) -> Ordering {
    if a[0] < b[0] {
        Ordering::Less
    } else if a[0] > b[0] {
        Ordering::Greater
    } else if a[1] < b[1] {
        Ordering::Less
    } else if a[1] > b[1] {
        Ordering::Greater
    } else if a[2] < b[2] {
        Ordering::Less
    } else if a[2] > b[2] {
        Ordering::Greater
    } else {
        Ordering::Equal
    }
}

fn version_core_chars(value: &[char]) -> (r: &[char])
    ensures
        r@ == version_core(value@),
{
    chars_before(chars_before(strip_leading_char_chars(value, 'v'), '-'), '+')
}

fn version_number_of(part: &[char]) -> (r: u32)
    ensures
        r == version_number(part@),
{
    match read_u32(part) {
        Some(n) => n,
        None => 0,
    }
}

/// Reads the three numbers of a version; a part that is no number counts as
/// zero.
pub fn parse_semver_core(value: &str) -> (r: [u32; 3])
    ensures
        r@ == version(value@),
{
    let chars = chars_of(value);
    let core = version_core_chars(chars.as_slice());
    let rest = chars_behind(core, '.');
    let major: u32 = version_number_of(chars_before(core, '.'));
    let minor: u32 = version_number_of(chars_before(rest, '.'));
    let patch: u32 = version_number_of(chars_behind(rest, '.'));
    let r = [major, minor, patch];
    assert(r@ =~= version(value@));
    r
}

/// Compares two versions by their three numbers.
pub fn compare_semver(current: &str, latest: &str) -> (r: Ordering)
    ensures
        r == version_order(version(current@), version(latest@)),
{
    let a = parse_semver_core(current);
    let b = parse_semver_core(latest);
    order_versions(&a, &b)
}

/// Compares the numbers of two versions.
pub fn order_versions(a: &[u32; 3], b: &[u32; 3]) -> (r: Ordering)
    ensures
        r == version_order(a@, b@),
{
    if a[0] < b[0] {
        Ordering::Less
    } else if a[0] > b[0] {
        Ordering::Greater
    } else if a[1] < b[1] {
        Ordering::Less
    } else if a[1] > b[1] {
        Ordering::Greater
    } else if a[2] < b[2] {
        Ordering::Less
    } else if a[2] > b[2] {
        Ordering::Greater
    } else {
        Ordering::Equal
    }
}

/// Whether one version comes before another.
pub open spec fn is_older(a: Seq<char>, b: Seq<char>) -> bool {
    version_order(version(a), version(b)) == Ordering::Less
}

/// Whether one version comes before another.
pub fn comes_before(a: &str, b: &str) -> (r: bool)
    ensures
        r == is_older(a@, b@),
{
    match compare_semver(a, b) {
        Ordering::Less => true,
        _ => false,
    }
}

/// Whether a text is the beginning of a version: three numbers in digits, with
/// dots between them.
pub open spec fn begins_with_version(core: Seq<char>) -> bool {
    let patch = behind(behind(core, '.'), '.');
    &&& all_digits(before(core, '.'))
    &&& all_digits(before(behind(core, '.'), '.'))
    &&& patch.len() > 0 && is_digit(patch[0])
}

/// Whether a tag names a version: without the letters `v` in front it begins
/// with a major, a minor and a patch number.
pub open spec fn is_version_tag(value: Seq<char>) -> bool {
    begins_with_version(version_core(trim(value)))
}

fn chars_are_digits(s: &[char]) -> (r: bool)
    ensures
        r == all_digits(s@),
{
    if s.len() == 0 {
        return false;
    }
    let mut i: usize = 0;
    while i < s.len()
        invariant
            i <= s.len(),
            s@.len() > 0,
            forall|j: int| 0 <= j < i ==> is_digit(#[trigger] s@[j]),
        decreases s.len() - i,
    {
        let c = s[i];
        if !('0' <= c && c <= '9') {
            assert(!is_digit(s@[i as int]));
            return false;
        }
        i += 1;
    }
    true
}

/// Whether a tag names a version, unlike `latest` or `dev`.
pub fn is_semver_tag(value: &str) -> (r: bool)
    ensures
        r == is_version_tag(value@),
{
    let chars = chars_of(value);
    let core = version_core_chars(trim_chars(chars.as_slice()));
    let rest = chars_behind(core, '.');
    let patch = chars_behind(rest, '.');
    chars_are_digits(chars_before(core, '.')) && chars_are_digits(chars_before(rest, '.'))
        && patch.len() > 0 && '0' <= patch[0] && patch[0] <= '9'
}

/// Whitespace around an image reference does not matter, neither to whether it
/// is valid nor to what it names.
pub proof fn outer_whitespace_is_ignored(image: Seq<char>)
    ensures
        image_problem(trim(image)) == image_problem(image),
        owner_repo(trim(image)) == owner_repo(image),
{
    trim_is_idempotent(image);
}

/// Versions are ordered: every version equals itself, turning a comparison
/// round turns its result round, and the order is passed on.
pub proof fn versions_are_ordered(a: Seq<char>, b: Seq<char>, c: Seq<char>)
    ensures
        version_order(version(a), version(a)) == Ordering::Equal,
        version_order(version(a), version(b)) == Ordering::Less <==> version_order(
            version(b),
            version(a),
        ) == Ordering::Greater,
        version_order(version(a), version(b)) == Ordering::Equal <==> version(a) == version(b),
        version_order(version(a), version(b)) != Ordering::Greater && version_order(
            version(b),
            version(c),
        ) != Ordering::Greater ==> version_order(version(a), version(c)) != Ordering::Greater,
{
    if version_order(version(a), version(b)) == Ordering::Equal {
        assert(version(a) =~= version(b));
    }
}

/// A `v` in front of a version does not count.
pub proof fn leading_v_is_ignored(value: Seq<char>)
    ensures
        version(seq!['v'] + value) == version(value),
{
    assert((seq!['v'] + value).skip(1) =~= value);
}

/// A pre-release or build suffix does not count, whatever stands before it.
pub proof fn suffix_is_ignored(value: Seq<char>, mark: char, suffix: Seq<char>)
    requires
        mark == '-' || mark == '+',
    ensures
        version(value + seq![mark] + suffix) == version(value),
{
    let long = value + seq![mark] + suffix;
    stripped_v_splits(value, seq![mark] + suffix);
    assert(long =~= value + (seq![mark] + suffix));
    let core = strip_leading_char(value, 'v');
    let rest = strip_leading_char(long, 'v');
    assert(rest =~= core + seq![mark] + suffix);
    assert(core.take(core.len() as int) =~= core);
    let n = index_of(core, '-');
    index_of_facts(core, '-');
    if n < core.len() || mark == '-' {
        index_of_is(rest, '-', n);
        assert(rest.take(n as int) =~= core.take(n as int));
    } else {
        index_of_facts(rest, '-');
        let m = index_of(rest, '-');
        assert forall|i: int| 0 <= i <= core.len() implies rest[i] != '-' by {
            if i < core.len() {
                assert(rest[i] == core[i]);
            }
        }
        assert(m > core.len());
        let cut = before(rest, '-');
        let k = index_of(core, '+');
        index_of_facts(core, '+');
        assert forall|i: int| 0 <= i < k implies cut[i] != '+' by {
            assert(cut[i] == core[i]);
        }
        index_of_is(cut, '+', k);
        assert(cut.take(k as int) =~= core.take(k as int));
    }
}

proof fn stripped_v_splits(value: Seq<char>, tail: Seq<char>)
    requires
        tail.len() > 0,
        tail[0] != 'v',
    ensures
        strip_leading_char(value + tail, 'v') == strip_leading_char(value, 'v') + tail,
    decreases value.len(),
{
    if value.len() > 0 && value[0] == 'v' {
        stripped_v_splits(value.skip(1), tail);
        assert((value + tail).skip(1) =~= value.skip(1) + tail);
    } else if value.len() == 0 {
        assert(value + tail =~= tail);
    }
}

/// A version is older than another if the first of their three numbers that differs
/// is smaller: the major number counts most, then the minor, then the patch number.
pub proof fn the_first_number_that_differs_decides(
    one: &str,
    other: &str,
    a: [u32; 3],
    b: [u32; 3],
    older: bool,
    order: Ordering,
)
    requires
        call_ensures(parse_semver_core, (one,), a),
        call_ensures(parse_semver_core, (other,), b),
        call_ensures(comes_before, (one, other), older),
        call_ensures(compare_semver, (one, other), order),
    ensures
        older <==> (a@[0] < b@[0] || (a@[0] == b@[0] && (a@[1] < b@[1] || (a@[1] == b@[1] && a@[2]
            < b@[2])))),
        order == Ordering::Equal <==> (a@[0] == b@[0] && a@[1] == b@[1] && a@[2] == b@[2]),
        order == Ordering::Less <==> older,
{
}

/// Three numbers with dots between them.
pub open spec fn dotted(major: u32, minor: u32, patch: u32) -> Seq<char> {
    decimal(major as nat) + seq!['.'] + (decimal(minor as nat) + seq!['.'] + decimal(
        patch as nat,
    ))
}

/// Three numbers with dots between them are a version with these numbers, and a tag
/// that names it.
#[verifier::rlimit(40)]
#[verifier::spinoff_prover]
pub proof fn dotted_numbers_are_a_version(major: u32, minor: u32, patch: u32)
    ensures
        version(dotted(major, minor, patch)) == seq![major, minor, patch],
        version_core(dotted(major, minor, patch)) == dotted(major, minor, patch),
        is_version_tag(dotted(major, minor, patch)),
        trim(dotted(major, minor, patch)) == dotted(major, minor, patch),
        strip_leading_char(dotted(major, minor, patch), 'v') == dotted(major, minor, patch),
{
    let a = decimal(major as nat);
    let b = decimal(minor as nat);
    let c = decimal(patch as nat);
    decimal_reads_back(major as nat, u32::MAX as nat);
    decimal_reads_back(minor as nat, u32::MAX as nat);
    decimal_reads_back(patch as nat, u32::MAX as nat);
    digits_hold_nothing_else(a);
    digits_hold_nothing_else(b);
    digits_hold_nothing_else(c);
    let s = dotted(major, minor, patch);
    assert forall|i: int| 0 <= i < s.len() implies s[i] != '-' && s[i] != '+' && !is_whitespace(
        s[i],
    ) by {
        if i < a.len() {
            assert(s[i] == a[i]);
        } else if i > a.len() && i < a.len() + 1 + b.len() {
            assert(s[i] == b[i - a.len() - 1]);
        } else if i > a.len() + 1 + b.len() {
            assert(s[i] == c[i - a.len() - b.len() - 2]);
        }
    }
    assert(s[0] == a[0]);
    assert(is_digit(s[0]));
    assert(!s.contains('-') && !s.contains('+'));
    parts_around(s, '-', Seq::empty());
    parts_around(s, '+', Seq::empty());
    parts_around(a, '.', b + seq!['.'] + c);
    parts_around(b, '.', c);
    trim_keeps_trimmed(s);
    assert(version(s) =~= seq![major, minor, patch]);
    assert(is_digit(c[0]));
}

proof fn digits_hold_nothing_else(s: Seq<char>)
    requires
        all_digits(s),
    ensures
        !s.contains('.') && !s.contains('-') && !s.contains('+') && !s.contains('v'),
        forall|i: int| 0 <= i < s.len() ==> !is_whitespace(#[trigger] s[i]),
{
}

/// A tag without dots, such as `latest`, names no version.
#[verifier::rlimit(40)]
#[verifier::spinoff_prover]
pub proof fn a_tag_without_dots_is_no_version(value: &str, r: bool)
    requires
        !value@.contains('.'),
        call_ensures(is_semver_tag, (value,), r),
    ensures
        !r,
{
    let t = trim(value@);
    let (a, b) = trimming_takes_only_blanks(value@);
    stripped_is_a_part(t, 'v');
    let u = strip_leading_char(t, 'v');
    let w = before(u, '-');
    index_of_facts(u, '-');
    index_of_facts(w, '+');
    let core = before(w, '+');
    assert forall|i: int| 0 <= i < core.len() implies core[i] != '.' by {
        assert(core[i] == w[i] && w[i] == u[i]);
        assert(u[i] == t[t.len() - u.len() + i]);
        let k = a.len() + (t.len() - u.len() + i);
        assert(value@[k] == core[i]);
        assert(value@.contains(value@[k]));
    }
    assert(!core.contains('.'));
    parts_around(core, '.', Seq::empty());
}

proof fn stripped_is_a_part(s: Seq<char>, c: char)
    ensures
        strip_leading_char(s, c).len() <= s.len(),
        strip_leading_char(s, c) == s.skip(s.len() - strip_leading_char(s, c).len()),
        forall|i: int| 0 <= i < s.len() - strip_leading_char(s, c).len() ==> s[i] == c,
        strip_leading_char(strip_leading_char(s, c), c) == strip_leading_char(s, c),
    decreases s.len(),
{
    if s.len() > 0 && s[0] == c {
        let t = s.skip(1);
        stripped_is_a_part(t, c);
        let r = strip_leading_char(s, c);
        assert(t.skip(t.len() - r.len()) =~= s.skip(s.len() - r.len()));
        assert forall|i: int| 0 <= i < s.len() - r.len() implies s[i] == c by {
            if i > 0 {
                assert(t[i - 1] == c);
            }
        }
    } else {
        assert(s.skip(0) =~= s);
    }
}

proof fn cut_behind_a_part(w: Seq<char>, s: Seq<char>, c: char)
    requires
        !w.contains(c),
    ensures
        before(w + s, c) == w + before(s, c),
        behind(w + s, c) == behind(s, c),
{
    let t = w + s;
    let n = index_of(s, c);
    index_of_facts(s, c);
    assert forall|i: int| 0 <= i < w.len() + n implies t[i] != c by {
        if i < w.len() {
            assert(w.contains(w[i]));
        } else {
            assert(t[i] == s[i - w.len()]);
        }
    }
    index_of_is(t, c, w.len() + n);
    assert(t.take((w.len() + n) as int) =~= w + s.take(n as int));
    if n < s.len() {
        assert(t.skip((w.len() + n) as int + 1) =~= s.skip(n as int + 1));
    }
}

proof fn cut_in_a_part(s: Seq<char>, w: Seq<char>, c: char)
    requires
        s.contains(c),
    ensures
        before(s + w, c) == before(s, c),
        behind(s + w, c) == behind(s, c) + w,
{
    let t = s + w;
    let n = index_of(s, c);
    has_char_is_index_of(s, c);
    index_of_facts(s, c);
    assert forall|i: int| 0 <= i < n implies t[i] != c by {
        assert(t[i] == s[i]);
    }
    index_of_is(t, c, n);
    assert(t.take(n as int) =~= s.take(n as int));
    assert(t.skip(n as int + 1) =~= s.skip(n as int + 1) + w);
}

proof fn blank_holds_no_mark(s: Seq<char>)
    requires
        is_blank(s),
    ensures
        !s.contains('-') && !s.contains('+') && !s.contains('.') && !s.contains('v'),
{
}

proof fn stripping_keeps_the_rest(s: Seq<char>)
    ensures
        behind(before(before(s, '-'), '+'), '.') == behind(version_core(s), '.'),
{
    stripped_is_a_part(s, 'v');
    let u = strip_leading_char(s, 'v');
    let vs = s.take(s.len() - u.len());
    assert(s =~= vs + u);
    assert(!vs.contains('-') && !vs.contains('+') && !vs.contains('.'));
    cut_behind_a_part(vs, u, '-');
    cut_behind_a_part(vs, before(u, '-'), '+');
    cut_behind_a_part(vs, before(before(u, '-'), '+'), '.');
}

#[verifier::rlimit(40)]
#[verifier::spinoff_prover]
proof fn leading_blank_does_not_raise(left: Seq<char>, s: Seq<char>)
    requires
        is_blank(left),
        left.len() > 0,
    ensures
        version(left + s)[0] == 0,
        version(left + s)[1] == version(s)[1],
        version(left + s)[2] == version(s)[2],
{
    let x = left + s;
    assert(x[0] == left[0]);
    assert(is_whitespace(left[0]));
    assert(strip_leading_char(x, 'v') == x);
    blank_holds_no_mark(left);
    let c1 = before(s, '-');
    let core = before(c1, '+');
    cut_behind_a_part(left, s, '-');
    cut_behind_a_part(left, c1, '+');
    cut_behind_a_part(left, core, '.');
    assert(version_core(x) == left + core);
    let major = left + before(core, '.');
    assert(major[0] == left[0]);
    assert(!all_digits(major)) by {
        assert(!is_digit(major[0]));
    }
    stripping_keeps_the_rest(s);
}

#[verifier::rlimit(40)]
#[verifier::spinoff_prover]
proof fn trailing_blank_does_not_raise(s: Seq<char>, right: Seq<char>)
    requires
        is_blank(right),
        right.len() > 0,
        begins_with_version(version_core(s)),
    ensures
        version(s + right)[0] == version(s)[0],
        version(s + right)[1] == version(s)[1],
        version(s + right)[2] == version(s)[2] || version(s + right)[2] == 0,
{
    blank_holds_no_mark(right);
    assert(is_whitespace(right[0]));
    assert(right[0] != 'v');
    stripped_v_splits(s, right);
    let u = strip_leading_char(s, 'v');
    let c1 = before(u, '-');
    if u.contains('-') {
        cut_in_a_part(u, right, '-');
    } else {
        parts_around(u, '-', Seq::empty());
        let both = u + right;
        assert forall|i: int| 0 <= i < both.len() implies both[i] != '-' by {
            if i < u.len() {
                assert(u.contains(u[i]));
            } else {
                assert(right.contains(right[i - u.len()]));
            }
        }
        parts_around(both, '-', Seq::empty());
        if c1.contains('+') {
            cut_in_a_part(c1, right, '+');
        } else {
            parts_around(c1, '+', Seq::empty());
            assert forall|i: int| 0 <= i < both.len() implies both[i] != '+' by {
                if i < u.len() {
                    assert(u.contains(u[i]));
                } else {
                    assert(right.contains(right[i - u.len()]));
                }
            }
            parts_around(both, '+', Seq::empty());
            let core = version_core(s);
            assert(core == u);
            assert(version_core(s + right) == core + right);
            if !core.contains('.') {
                parts_around(core, '.', Seq::empty());
                assert(false);
            }
            cut_in_a_part(core, right, '.');
            let rest = behind(core, '.');
            if !rest.contains('.') {
                parts_around(rest, '.', Seq::empty());
                assert(false);
            }
            cut_in_a_part(rest, right, '.');
            let patch = behind(rest, '.') + right;
            assert(patch[0] == behind(rest, '.')[0]);
            assert(patch.last() == right.last());
            assert(is_whitespace(right.last()));
            assert(!all_digits(patch));
        }
    }
}

/// The blanks around a tag never make it name a newer version.
pub proof fn blanks_make_no_version_newer(name: Seq<char>)
    requires
        is_version_tag(name),
    ensures
        !is_older(trim(name), name),
        version(strip_leading_char(trim(name), 'v')) == version(trim(name)),
        strip_leading_char(trim(name), 'v').len() > 0,
{
    let t = trim(name);
    let (left, right) = trimming_takes_only_blanks(name);
    let y = t + right;
    assert(name =~= left + y);
    if right.len() > 0 {
        trailing_blank_does_not_raise(t, right);
    } else {
        assert(y =~= t);
    }
    if left.len() > 0 {
        leading_blank_does_not_raise(left, y);
    } else {
        assert(name =~= y);
    }
    stripped_is_a_part(t, 'v');
    let u = strip_leading_char(t, 'v');
    index_of_facts(u, '-');
    index_of_facts(before(u, '-'), '+');
    index_of_facts(version_core(t), '.');
}

/// What is accepted as an image: an owner and a name with a slash between them, with
/// or without the name of Docker Hub in front. Both name the same repository, and a
/// tag or a digest behind them does not change which.
pub proof fn an_owner_and_a_name_are_an_image(
    owner: Seq<char>,
    name: Seq<char>,
    mark: char,
    suffix: Seq<char>,
)
    requires
        owner.len() > 0 && name.len() > 0,
        forall|i: int| 0 <= i < owner.len() ==> is_plain_char(#[trigger] owner[i]) && owner[i] != '.',
        forall|i: int| 0 <= i < name.len() ==> is_plain_char(#[trigger] name[i]),
        mark == ':' || mark == '@',
        suffix.len() > 0 ==> !is_whitespace(suffix.last()),
    ensures
        image_problem(owner + seq!['/'] + name) is None,
        image_problem("docker.io/"@ + (owner + seq!['/'] + name)) is None,
        owner_repo(owner + seq!['/'] + name) == Some((owner, name)),
        owner_repo("docker.io/"@ + (owner + seq!['/'] + name)) == Some((owner, name)),
        owner_repo(owner + seq!['/'] + name + seq![mark] + suffix) == Some((owner, name)),
{
    plain_image(owner, name);
    hub_image(owner, name);
    tagged_image(owner, name, mark, suffix);
}

#[verifier::rlimit(40)]
#[verifier::spinoff_prover]
proof fn plain_image(owner: Seq<char>, name: Seq<char>)
    requires
        owner.len() > 0 && name.len() > 0,
        forall|i: int| 0 <= i < owner.len() ==> is_plain_char(#[trigger] owner[i]) && owner[i] != '.',
        forall|i: int| 0 <= i < name.len() ==> is_plain_char(#[trigger] name[i]),
    ensures
        ({
            let s = owner + seq!['/'] + name;
            &&& image_problem(s) is None
            &&& owner_repo(s) == Some((owner, name))
            &&& trim(s) == s
            &&& hub_path(s) == s
            &&& split(s, '/') == seq![owner, name]
            &&& forall|i: int| 0 <= i < s.len() ==> is_plain_char(#[trigger] s[i]) || s[i] == '/'
        }),
{
    let s = owner + seq!['/'] + name;
    plain_path(owner, name);
    assert forall|i: int| 0 <= i < s.len() implies is_plain_char(#[trigger] s[i]) || s[i]
        == '/' by {
        if i < owner.len() {
            assert(s[i] == owner[i]);
        } else if i > owner.len() {
            assert(s[i] == name[i - owner.len() - 1]);
        }
    }
    assert(s[0] == owner[0] && s.last() == name.last());
    assert(is_plain_char(owner[0]) && is_plain_char(name.last()));
    trim_keeps_trimmed(s);
    assert(!s.contains('@') && !s.contains(':'));
    parts_around(s, '@', Seq::empty());
    parts_around(s, ':', Seq::empty());
    parts_around(owner, '/', name);
    parts_around(name, '/', Seq::empty());
    assert(split(s, '/') =~= seq![owner, name]);
}

#[verifier::rlimit(40)]
#[verifier::spinoff_prover]
proof fn hub_is_stripped(owner: Seq<char>, rest: Seq<char>)
    requires
        owner.len() > 0,
        forall|i: int| 0 <= i < owner.len() ==> is_plain_char(#[trigger] owner[i]) && owner[i] != '.',
    ensures
        hub_path("docker.io/"@ + (owner + seq!['/'] + rest)) == owner + seq!['/'] + rest,
{
    reveal_strlit("docker.io/");
    let s = owner + seq!['/'] + rest;
    plain_start(owner, rest);
    leading_parts_are_stripped("docker.io/"@, s);
    assert("registry-1.docker.io/"@.len() > 0) by {
        reveal_strlit("registry-1.docker.io/");
    }
    leading_parts_are_stripped("registry-1.docker.io/"@, s);
}

proof fn hub_has_no_space()
    ensures
        "docker.io/"@.len() == 10,
        forall|i: int| 0 <= i < 10 ==> !is_whitespace(#[trigger] "docker.io/"@[i]) && !is_control(
            "docker.io/"@[i],
        ),
{
    reveal_strlit("docker.io/");
}

#[verifier::rlimit(40)]
#[verifier::spinoff_prover]
proof fn hub_is_visible(s: Seq<char>)
    requires
        s.len() > 0,
        forall|i: int| 0 <= i < s.len() ==> is_plain_char(#[trigger] s[i]) || s[i] == '/',
    ensures
        trim("docker.io/"@ + s) == "docker.io/"@ + s,
        !has_space_or_control("docker.io/"@ + s),
        ("docker.io/"@ + s).len() > 0,
        starts_with("docker.io/"@ + s, "docker.io/"@),
{
    hub_has_no_space();
    let hub = "docker.io/"@;
    let t = hub + s;
    parts_are_contained(Seq::empty(), hub, s);
    assert forall|i: int| 0 <= i < t.len() implies !is_whitespace(#[trigger] t[i]) && !is_control(
        t[i],
    ) by {
        if i < hub.len() {
            assert(t[i] == hub[i]);
        } else {
            assert(t[i] == s[i - hub.len()]);
        }
    }
    trim_keeps_trimmed(t);
}

#[verifier::rlimit(40)]
#[verifier::spinoff_prover]
proof fn hub_image(owner: Seq<char>, name: Seq<char>)
    requires
        owner.len() > 0 && name.len() > 0,
        forall|i: int| 0 <= i < owner.len() ==> is_plain_char(#[trigger] owner[i]) && owner[i] != '.',
        forall|i: int| 0 <= i < name.len() ==> is_plain_char(#[trigger] name[i]),
    ensures
        image_problem("docker.io/"@ + (owner + seq!['/'] + name)) is None,
        owner_repo("docker.io/"@ + (owner + seq!['/'] + name)) == Some((owner, name)),
{
    let s = owner + seq!['/'] + name;
    plain_image(owner, name);
    hub_is_stripped(owner, name);
    hub_is_visible(s);
}

#[verifier::rlimit(40)]
#[verifier::spinoff_prover]
proof fn tagged_image(owner: Seq<char>, name: Seq<char>, mark: char, suffix: Seq<char>)
    requires
        owner.len() > 0 && name.len() > 0,
        forall|i: int| 0 <= i < owner.len() ==> is_plain_char(#[trigger] owner[i]) && owner[i] != '.',
        forall|i: int| 0 <= i < name.len() ==> is_plain_char(#[trigger] name[i]),
        mark == ':' || mark == '@',
        suffix.len() > 0 ==> !is_whitespace(suffix.last()),
    ensures
        owner_repo(owner + seq!['/'] + name + seq![mark] + suffix) == Some((owner, name)),
{
    let s = owner + seq!['/'] + name;
    plain_image(owner, name);
    let l = s + seq![mark] + suffix;
    assert(l[0] == s[0]);
    if suffix.len() > 0 {
        assert(l.last() == suffix.last());
    } else {
        assert(l.last() == mark);
    }
    trim_keeps_trimmed(l);
    assert(l =~= owner + seq!['/'] + (name + seq![mark] + suffix));
    plain_start(owner, name + seq![mark] + suffix);
    assert(!s.contains('@') && !s.contains(':'));
    if mark == '@' {
        parts_around(s, '@', suffix);
        parts_around(s, ':', Seq::empty());
    } else {
        let m = seq![':'] + suffix;
        assert(l =~= s + m);
        cut_behind_a_part(s, m, '@');
        index_of_facts(m, '@');
        let cut = before(m, '@');
        assert(m[0] == ':');
        assert(cut.len() > 0) by {
            assert(index_of(m, '@') > 0);
        }
        assert(cut =~= seq![':'] + cut.skip(1));
        assert(s + cut =~= s + seq![':'] + cut.skip(1));
        parts_around(s, ':', cut.skip(1));
    }
}

/// A character that can stand in the name of a repository: it ends no part of it,
/// and is neither whitespace nor a control character.
pub open spec fn is_plain_char(c: char) -> bool {
    c != '/' && c != ':' && c != '@' && !is_whitespace(c) && !is_control(c)
}

#[verifier::rlimit(40)]
#[verifier::spinoff_prover]
proof fn plain_start(owner: Seq<char>, rest: Seq<char>)
    requires
        owner.len() > 0,
        forall|i: int| 0 <= i < owner.len() ==> is_plain_char(#[trigger] owner[i]) && owner[i] != '.',
    ensures
        !starts_with(owner + seq!['/'] + rest, "docker.io/"@),
        !starts_with(owner + seq!['/'] + rest, "registry-1.docker.io/"@),
        hub_path(owner + seq!['/'] + rest) == owner + seq!['/'] + rest,
{
    reveal_strlit("docker.io/");
    reveal_strlit("registry-1.docker.io/");
    let s = owner + seq!['/'] + rest;
    if starts_with(s, "docker.io/"@) {
        let p = s.take(10);
        assert(p[6] == '.' && p[9] == '/');
        assert(s[6] == '.');
        if owner.len() <= 6 {
            assert(s[owner.len() as int] == '/');
            assert(p[owner.len() as int] == '/');
            assert(false);
        }
        assert(owner[6] == '.');
    }
    if starts_with(s, "registry-1.docker.io/"@) {
        let p = s.take(21);
        assert(p[10] == '.');
        assert(s[10] == '.');
        if owner.len() <= 10 {
            assert(s[owner.len() as int] == '/');
            assert(p[owner.len() as int] == '/');
            assert(false);
        }
        assert(owner[10] == '.');
    }
}

proof fn plain_path(owner: Seq<char>, name: Seq<char>)
    requires
        owner.len() > 0 && name.len() > 0,
        forall|i: int| 0 <= i < owner.len() ==> is_plain_char(#[trigger] owner[i]) && owner[i] != '.',
        forall|i: int| 0 <= i < name.len() ==> is_plain_char(#[trigger] name[i]),
    ensures
        hub_path(owner + seq!['/'] + name) == owner + seq!['/'] + name,
        !owner.contains('/') && !owner.contains('.') && !owner.contains(':'),
        !name.contains('/'),
{
    plain_start(owner, name);
}

/// What is refused as an image: nothing at all, a name without an owner, whitespace
/// within it, and a registry other than Docker Hub, which shows by a dot or a colon
/// before the first slash.
#[verifier::rlimit(40)]
#[verifier::spinoff_prover]
pub proof fn other_registries_are_refused(
    image: &str,
    host: Seq<char>,
    rest: Seq<char>,
    r: Result<(), AdminServiceError>,
)
    requires
        call_ensures(validate_image_ref, (image,), r),
        !host.contains('/'),
    ensures
        r matches Err(e) ==> e@.status() == 400,
        trim(image@).len() == 0 ==> r is Err,
        (exists|i: int|
            0 <= i < trim(image@).len() && (is_whitespace(#[trigger] trim(image@)[i]) || is_control(
                trim(image@)[i],
            ))) ==> r is Err,
        trim(image@) == host ==> r is Err,
        trim(image@) == host + seq!['/'] + rest && (host.contains('.') || host.contains(':')) && host
            != "docker.io"@ && host != "registry-1.docker.io"@ ==> r is Err,
{
    let value = trim(image@);
    parts_around(host, '/', rest);
    reveal_strlit("docker.io/");
    reveal_strlit("registry-1.docker.io/");
    reveal_strlit("docker.io");
    reveal_strlit("registry-1.docker.io");
    if value == host {
        let hub = "docker.io/"@;
        let registry = "registry-1.docker.io/"@;
        if starts_with(value, hub) {
            assert(value.take(10)[9] == '/');
            assert(host.contains(value[9]));
        }
        if starts_with(value, registry) {
            assert(value.take(21)[20] == '/');
            assert(host.contains(value[20]));
        }
        assert(hub_path(value) == value);
        assert(split(value, '/').len() == 1);
    }
    if value == host + seq!['/'] + rest {
        if starts_with(value, "docker.io/"@) {
            assert("docker.io"@ + seq!['/'] =~= "docker.io/"@);
            named_host(host, rest, "docker.io"@);
        }
        if starts_with(value, "registry-1.docker.io/"@) {
            assert("registry-1.docker.io"@ + seq!['/'] =~= "registry-1.docker.io/"@);
            named_host(host, rest, "registry-1.docker.io"@);
        }
    }
}

proof fn named_host(host: Seq<char>, rest: Seq<char>, known: Seq<char>)
    requires
        !host.contains('/'),
        !known.contains('/'),
        starts_with(host + seq!['/'] + rest, known + seq!['/']),
    ensures
        host == known,
{
    let s = host + seq!['/'] + rest;
    let p = known + seq!['/'];
    let tail = s.skip(p.len() as int);
    assert(s =~= p + tail);
    assert(s =~= known + seq!['/'] + tail);
    parts_around(host, '/', rest);
    parts_around(known, '/', tail);
}

/// A tag may follow the name of an image, a path may have more than two parts, and Docker
/// Hub may be named in either of two ways. A path of three parts names no repository.
#[verifier::rlimit(40)]
#[verifier::spinoff_prover]
pub proof fn longer_references_are_images(
    owner: Seq<char>,
    name: Seq<char>,
    tag: Seq<char>,
    more: Seq<char>,
)
    requires
        owner.len() > 0 && name.len() > 0 && more.len() > 0,
        forall|i: int| 0 <= i < owner.len() ==> is_plain_char(#[trigger] owner[i]) && owner[i] != '.',
        forall|i: int| 0 <= i < name.len() ==> is_plain_char(#[trigger] name[i]),
        forall|i: int| 0 <= i < more.len() ==> is_plain_char(#[trigger] more[i]),
        forall|i: int| 0 <= i < tag.len() ==> is_plain_char(#[trigger] tag[i]),
    ensures
        image_problem(owner + seq!['/'] + (name + seq![':'] + tag)) is None,
        image_problem(owner + seq!['/'] + (name + seq!['/'] + more)) is None,
        owner_repo(owner + seq!['/'] + (name + seq!['/'] + more)) is None,
        image_problem(owner + seq!['/'] + Seq::<char>::empty()) is Some,
        owner_repo(owner + seq!['/'] + Seq::<char>::empty()) is None,
{
    tagged_name(name, ':', tag);
    visible_path(owner, name + seq![':'] + tag);
    assert(!(name + seq![':'] + tag).contains('/'));
    parts_around(name + seq![':'] + tag, '/', Seq::empty());
    assert(split(owner + seq!['/'] + (name + seq![':'] + tag), '/') =~= seq![
        owner,
        name + seq![':'] + tag,
    ]);
    tagged_name(name, '/', more);
    let three = owner + seq!['/'] + (name + seq!['/'] + more);
    visible_path(owner, name + seq!['/'] + more);
    assert(!name.contains('/') && !more.contains('/'));
    parts_around(name, '/', more);
    parts_around(more, '/', Seq::empty());
    assert(split(three, '/') =~= seq![owner, name, more]);
    assert(!three.contains('@') && !three.contains(':')) by {
        assert forall|i: int| 0 <= i < three.len() implies three[i] != '@' && three[i] != ':' by {
            if i < owner.len() {
                assert(three[i] == owner[i]);
            } else if i > owner.len() {
                let r = name + seq!['/'] + more;
                assert(three[i] == r[i - owner.len() - 1]);
                if i - owner.len() - 1 < name.len() {
                    assert(r[i - owner.len() - 1] == name[i - owner.len() - 1]);
                } else if i - owner.len() - 1 > name.len() {
                    assert(r[i - owner.len() - 1] == more[i - owner.len() - name.len() - 2]);
                }
            }
        }
    }
    parts_around(three, '@', Seq::empty());
    parts_around(three, ':', Seq::empty());
    let none = Seq::<char>::empty();
    visible_path(owner, none);
    parts_around(none, '/', none);
    let short = owner + seq!['/'] + none;
    assert(split(short, '/') =~= seq![owner, none]);
    assert(split(short, '/')[1].len() == 0);
    assert(!short.contains('@') && !short.contains(':')) by {
        assert forall|i: int| 0 <= i < short.len() implies short[i] != '@' && short[i] != ':' by {
            if i < owner.len() {
                assert(short[i] == owner[i]);
            }
        }
    }
    parts_around(short, '@', none);
    parts_around(short, ':', none);
}

proof fn tagged_name(name: Seq<char>, mark: char, rest: Seq<char>)
    requires
        mark == ':' || mark == '/',
        forall|i: int| 0 <= i < name.len() ==> is_plain_char(#[trigger] name[i]),
        forall|i: int| 0 <= i < rest.len() ==> is_plain_char(#[trigger] rest[i]),
    ensures
        forall|i: int|
            0 <= i < (name + seq![mark] + rest).len() ==> {
                let c = #[trigger] (name + seq![mark] + rest)[i];
                is_plain_char(c) || c == mark
            },
{
    let s = name + seq![mark] + rest;
    assert forall|i: int| 0 <= i < s.len() implies is_plain_char(#[trigger] s[i]) || s[i]
        == mark by {
        if i < name.len() {
            assert(s[i] == name[i]);
        } else if i > name.len() {
            assert(s[i] == rest[i - name.len() - 1]);
        }
    }
}

#[verifier::rlimit(40)]
#[verifier::spinoff_prover]
proof fn visible_path(owner: Seq<char>, rest: Seq<char>)
    requires
        owner.len() > 0,
        forall|i: int| 0 <= i < owner.len() ==> is_plain_char(#[trigger] owner[i]) && owner[i] != '.',
        forall|i: int|
            0 <= i < rest.len() ==> is_plain_char(#[trigger] rest[i]) || rest[i] == '/' || rest[i]
                == ':',
    ensures
        ({
            let s = owner + seq!['/'] + rest;
            &&& trim(s) == s
            &&& s.len() > 0
            &&& !has_space_or_control(s)
            &&& is_hub_reference(s)
            &&& hub_path(s) == s
            &&& before(s, '/') == owner
            &&& split(s, '/') == seq![owner] + split(rest, '/')
        }),
{
    let s = owner + seq!['/'] + rest;
    assert forall|i: int| 0 <= i < s.len() implies !is_whitespace(#[trigger] s[i]) && !is_control(
        s[i],
    ) by {
        if i < owner.len() {
            assert(s[i] == owner[i]);
        } else if i > owner.len() {
            assert(s[i] == rest[i - owner.len() - 1]);
        }
    }
    trim_keeps_trimmed(s);
    plain_start(owner, rest);
    assert(!owner.contains('/') && !owner.contains('.') && !owner.contains(':'));
    parts_around(owner, '/', rest);
}

/// Each way in which a text is no image is told in its own words: nothing, whitespace,
/// another registry, or a path without an owner.
#[verifier::rlimit(40)]
#[verifier::spinoff_prover]
pub proof fn every_bad_image_is_told_why(
    image: &str,
    host: Seq<char>,
    rest: Seq<char>,
    r: Result<(), AdminServiceError>,
)
    requires
        call_ensures(validate_image_ref, (image,), r),
        !host.contains('/'),
    ensures
        trim(image@).len() == 0 ==> r->Err_0@ == ErrorView::Invalid("镜像地址不能为空"@),
        trim(image@).len() > 0 && has_space_or_control(trim(image@)) ==> r->Err_0@
            == ErrorView::Invalid("镜像地址不能包含空白或控制字符"@),
        trim(image@) == host + seq!['/'] + rest && !has_space_or_control(trim(image@)) && (
        host.contains('.') || host.contains(':')) && host != "docker.io"@ && host
            != "registry-1.docker.io"@ ==> r->Err_0@ == ErrorView::Invalid(
            "在线更新只支持 Docker Hub 镜像（如 owner/image:tag 或 docker.io/owner/image:tag）"@,
        ),
        trim(image@) == host && host.len() > 0 && !has_space_or_control(host) && !host.contains('.')
            && !host.contains(':') ==> r->Err_0@ == ErrorView::Invalid(
            "Docker Hub 镜像需为 owner/image[:tag] 格式"@,
        ),
{
    other_registries_are_refused(image, host, rest, r);
    let value = trim(image@);
    parts_around(host, '/', rest);
    if value == host + seq!['/'] + rest {
        reveal_strlit("docker.io/");
        reveal_strlit("registry-1.docker.io/");
        reveal_strlit("docker.io");
        reveal_strlit("registry-1.docker.io");
        if starts_with(value, "docker.io/"@) {
            assert("docker.io"@ + seq!['/'] =~= "docker.io/"@);
            named_host(host, rest, "docker.io"@);
        }
        if starts_with(value, "registry-1.docker.io/"@) {
            assert("registry-1.docker.io"@ + seq!['/'] =~= "registry-1.docker.io/"@);
            named_host(host, rest, "registry-1.docker.io"@);
        }
    }
}

/// The other name of Docker Hub stands for it as well.
pub proof fn docker_hub_has_two_names(owner: Seq<char>, name: Seq<char>)
    requires
        owner.len() > 0 && name.len() > 0,
        forall|i: int| 0 <= i < owner.len() ==> is_plain_char(#[trigger] owner[i]) && owner[i] != '.',
        forall|i: int| 0 <= i < name.len() ==> is_plain_char(#[trigger] name[i]),
    ensures
        image_problem("registry-1.docker.io/"@ + (owner + seq!['/'] + name)) is None,
        owner_repo("registry-1.docker.io/"@ + (owner + seq!['/'] + name)) == Some((owner, name)),
{
    let s = owner + seq!['/'] + name;
    plain_image(owner, name);
    registry_is_stripped(owner, name);
    registry_is_visible(s);
}

#[verifier::rlimit(40)]
#[verifier::spinoff_prover]
proof fn registry_is_stripped(owner: Seq<char>, rest: Seq<char>)
    requires
        owner.len() > 0,
        forall|i: int| 0 <= i < owner.len() ==> is_plain_char(#[trigger] owner[i]) && owner[i] != '.',
    ensures
        hub_path("registry-1.docker.io/"@ + (owner + seq!['/'] + rest)) == owner + seq!['/'] + rest,
{
    let s = owner + seq!['/'] + rest;
    let t = "registry-1.docker.io/"@ + s;
    plain_start(owner, rest);
    assert(!starts_with(t, "docker.io/"@)) by {
        reveal_strlit("docker.io/");
        reveal_strlit("registry-1.docker.io/");
        assert(t[0] == 'r');
        if starts_with(t, "docker.io/"@) {
            assert(t.take(10)[0] == 'd');
        }
    }
    assert("docker.io/"@.len() > 0 && "registry-1.docker.io/"@.len() > 0) by {
        reveal_strlit("docker.io/");
        reveal_strlit("registry-1.docker.io/");
    }
    leading_parts_are_stripped("docker.io/"@, t);
    leading_parts_are_stripped("registry-1.docker.io/"@, s);
}

proof fn registry_has_no_space()
    ensures
        "registry-1.docker.io/"@.len() == 21,
        forall|i: int|
            0 <= i < 21 ==> !is_whitespace(#[trigger] "registry-1.docker.io/"@[i]) && !is_control(
                "registry-1.docker.io/"@[i],
            ),
{
    reveal_strlit("registry-1.docker.io/");
}

#[verifier::rlimit(40)]
#[verifier::spinoff_prover]
proof fn registry_is_visible(s: Seq<char>)
    requires
        s.len() > 0,
        forall|i: int| 0 <= i < s.len() ==> is_plain_char(#[trigger] s[i]) || s[i] == '/',
    ensures
        trim("registry-1.docker.io/"@ + s) == "registry-1.docker.io/"@ + s,
        !has_space_or_control("registry-1.docker.io/"@ + s),
        ("registry-1.docker.io/"@ + s).len() > 0,
        starts_with("registry-1.docker.io/"@ + s, "registry-1.docker.io/"@),
{
    registry_has_no_space();
    let registry = "registry-1.docker.io/"@;
    let t = registry + s;
    parts_are_contained(Seq::empty(), registry, s);
    assert forall|i: int| 0 <= i < t.len() implies !is_whitespace(#[trigger] t[i]) && !is_control(
        t[i],
    ) by {
        if i < registry.len() {
            assert(t[i] == registry[i]);
        } else {
            assert(t[i] == s[i - registry.len()]);
        }
    }
    trim_keeps_trimmed(t);
}

/// A tag names a version with or without a `v` in front, and with or without a suffix
/// behind a hyphen.
#[verifier::rlimit(40)]
#[verifier::spinoff_prover]
pub proof fn tags_name_versions(major: u32, minor: u32, patch: u32, suffix: Seq<char>)
    requires
        suffix.len() > 0 && !is_whitespace(suffix.last()),
    ensures
        is_version_tag(seq!['v'] + dotted(major, minor, patch)),
        version(seq!['v'] + dotted(major, minor, patch)) == seq![major, minor, patch],
        is_version_tag(dotted(major, minor, patch) + seq!['-'] + suffix),
        version(dotted(major, minor, patch) + seq!['-'] + suffix) == seq![major, minor, patch],
{
    let d = dotted(major, minor, patch);
    dotted_numbers_are_a_version(major, minor, patch);
    leading_v_is_ignored(d);
    let v = seq!['v'] + d;
    decimal_reads_back(patch as nat, u32::MAX as nat);
    let c = decimal(patch as nat);
    assert(is_digit(c.last()));
    assert(v[0] == 'v' && v.last() == d.last() && d.last() == c.last());
    trim_keeps_trimmed(v);
    leading_characters_are_stripped('v', d);
    suffix_is_ignored(d, '-', suffix);
    let l = d + seq!['-'] + suffix;
    decimal_reads_back(major as nat, u32::MAX as nat);
    assert(is_digit(decimal(major as nat)[0]));
    assert(l[0] == d[0] && d[0] == decimal(major as nat)[0]);
    assert(l.last() == suffix.last());
    trim_keeps_trimmed(l);
    assert(strip_leading_char(l, 'v') == l);
    assert(!d.contains('-')) by {
        if d.contains('-') {
            let a = decimal(major as nat);
            let b = decimal(minor as nat);
            decimal_reads_back(minor as nat, u32::MAX as nat);
            let i = choose|i: int| 0 <= i < d.len() && d[i] == '-';
            if i < a.len() {
                assert(d[i] == a[i]);
            } else if i > a.len() && i < a.len() + 1 + b.len() {
                assert(d[i] == b[i - a.len() - 1]);
            } else if i > a.len() + 1 + b.len() {
                assert(d[i] == c[i - a.len() - b.len() - 2]);
            }
        }
    }
    parts_around(d, '-', suffix);
    parts_around(d, '-', Seq::empty());
}

} // verus!
