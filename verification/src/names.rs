use vstd::prelude::*;
use vstd::string::*;

verus! {

/// The character of one decimal digit.
pub open spec fn digit(d: nat) -> char {
    if d == 0 {
        '0'
    } else if d == 1 {
        '1'
    } else if d == 2 {
        '2'
    } else if d == 3 {
        '3'
    } else if d == 4 {
        '4'
    } else if d == 5 {
        '5'
    } else if d == 6 {
        '6'
    } else if d == 7 {
        '7'
    } else if d == 8 {
        '8'
    } else {
        '9'
    }
}

/// A number in decimal, without sign and without leading zeros.
pub open spec fn decimal(n: nat) -> Seq<char>
    decreases n,
{
    if n < 10 {
        seq![digit(n)]
    } else {
        decimal(n / 10).push(digit(n % 10))
    }
}

/// `dir/name`, or `dir/project/name` where a project is given.
pub open spec fn scoped(dir: Seq<char>, project: Seq<char>, name: Seq<char>) -> Seq<char> {
    if project.len() == 0 {
        dir + seq!['/'] + name
    } else {
        dir + seq!['/'] + project + seq!['/'] + name
    }
}

/// The name of a derivative within its project: identity, `-`, width, `x`, height.
pub open spec fn derivative_name_of(identity: Seq<char>, width: u32, height: u32) -> Seq<char> {
    identity + seq!['-'] + decimal(width as nat) + seq!['x'] + decimal(height as nat)
}

/// Where the original of `identity` is stored.
pub open spec fn original_path_of(project: Seq<char>, identity: Seq<char>) -> Seq<char> {
    scoped("upload_files"@, project, identity + ".jpg"@)
}

/// Where the derivative of `identity` at `width` by `height` is stored.
pub open spec fn derivative_path_of(
    project: Seq<char>,
    identity: Seq<char>,
    width: u32,
    height: u32,
) -> Seq<char> {
    scoped("upload_thumbs"@, project, derivative_name_of(identity, width, height))
}

/// Where a derivative is written before it is moved to its final place.
pub open spec fn staging_path_of(token: Seq<char>) -> Seq<char> {
    scoped("upload_thumbs"@, Seq::<char>::empty(), token + ".jpg"@)
}

/// Where the history log of `project` is stored.
pub open spec fn history_path_of(project: Seq<char>) -> Seq<char> {
    scoped("stacks"@, Seq::<char>::empty(), project + ".stack"@)
}

/// Where a history log is written before it replaces the stored one.
pub open spec fn history_staging_path_of(token: Seq<char>) -> Seq<char> {
    scoped("stacks"@, Seq::<char>::empty(), token + ".tmp"@)
}

/// A decimal numeral is made of digits alone, and of at least one.
pub proof fn decimal_is_digits(n: nat)
    ensures
        decimal(n).len() >= 1,
        forall|i: int| 0 <= i < decimal(n).len() ==> '0' <= #[trigger] decimal(n)[i] <= '9',
    decreases n,
{
    if n >= 10 {
        decimal_is_digits(n / 10);
    }
}

/// Two numbers with the same decimal numeral are the same number.
pub proof fn decimal_is_one_to_one(a: nat, b: nat)
    requires
        decimal(a) == decimal(b),
    ensures
        a == b,
    decreases a,
{
    decimal_is_digits(a / 10);
    decimal_is_digits(b / 10);
    if a < 10 && b < 10 {
        assert(decimal(a)[0] == digit(a));
        assert(decimal(b)[0] == digit(b));
    } else if a >= 10 && b >= 10 {
        let da = decimal(a / 10);
        let db = decimal(b / 10);
        assert(decimal(a).len() == da.len() + 1);
        assert(decimal(b).len() == db.len() + 1);
        assert(decimal(a)[da.len() as int] == digit(a % 10));
        assert(decimal(b)[db.len() as int] == digit(b % 10));
        assert(da =~= decimal(a).drop_last());
        assert(db =~= decimal(b).drop_last());
        decimal_is_one_to_one(a / 10, b / 10);
    } else if a < 10 {
        assert(decimal(a).len() == 1);
        assert(decimal(b).len() == decimal(b / 10).len() + 1);
    } else {
        assert(decimal(b).len() == 1);
        assert(decimal(a).len() == decimal(a / 10).len() + 1);
    }
}

/// A text that ends in a mark and a tail without that mark splits there in
/// one way only.
pub proof fn split_at_last_mark(
    head1: Seq<char>,
    tail1: Seq<char>,
    head2: Seq<char>,
    tail2: Seq<char>,
    mark: char,
)
    requires
        head1 + seq![mark] + tail1 == head2 + seq![mark] + tail2,
        forall|i: int| 0 <= i < tail1.len() ==> tail1[i] != mark,
        forall|i: int| 0 <= i < tail2.len() ==> tail2[i] != mark,
    ensures
        head1 == head2,
        tail1 == tail2,
{
    let s1 = head1 + seq![mark] + tail1;
    let s2 = head2 + seq![mark] + tail2;
    assert(s1.len() == head1.len() + 1 + tail1.len());
    assert(s2.len() == head2.len() + 1 + tail2.len());
    if head1.len() < head2.len() {
        let k = head2.len() as int;
        assert(s2[k] == mark);
        assert(s1[k] == tail1[k - head1.len() - 1]);
        assert(false);
    }
    if head2.len() < head1.len() {
        let k = head1.len() as int;
        assert(s1[k] == mark);
        assert(s2[k] == tail2[k - head2.len() - 1]);
        assert(false);
    }
    assert forall|i: int| 0 <= i < head1.len() implies head1[i] == head2[i] by {
        assert(s1[i] == head1[i]);
        assert(s2[i] == head2[i]);
    }
    assert(head1 =~= head2);
    assert forall|i: int| 0 <= i < tail1.len() implies tail1[i] == tail2[i] by {
        assert(s1[head1.len() + 1 + i] == tail1[i]);
        assert(s2[head2.len() + 1 + i] == tail2[i]);
    }
    assert(tail1 =~= tail2);
}

/// Within a project a derivative's name stands for one key only: two names
/// are the same text only where identity, width and height are the same.
pub proof fn derivative_name_is_one_to_one(
    identity1: Seq<char>,
    width1: u32,
    height1: u32,
    identity2: Seq<char>,
    width2: u32,
    height2: u32,
)
    requires
        derivative_name_of(identity1, width1, height1) == derivative_name_of(
            identity2,
            width2,
            height2,
        ),
    ensures
        identity1 == identity2,
        width1 == width2,
        height1 == height2,
{
    decimal_is_digits(width1 as nat);
    decimal_is_digits(width2 as nat);
    decimal_is_digits(height1 as nat);
    decimal_is_digits(height2 as nat);
    split_at_last_mark(
        identity1 + seq!['-'] + decimal(width1 as nat),
        decimal(height1 as nat),
        identity2 + seq!['-'] + decimal(width2 as nat),
        decimal(height2 as nat),
        'x',
    );
    split_at_last_mark(
        identity1,
        decimal(width1 as nat),
        identity2,
        decimal(width2 as nat),
        '-',
    );
    decimal_is_one_to_one(width1 as nat, width2 as nat);
    decimal_is_one_to_one(height1 as nat, height2 as nat);
}

/// Within a project a derivative's path stands for one key only.
pub proof fn derivative_path_is_one_to_one(
    project: Seq<char>,
    identity1: Seq<char>,
    width1: u32,
    height1: u32,
    identity2: Seq<char>,
    width2: u32,
    height2: u32,
)
    requires
        derivative_path_of(project, identity1, width1, height1) == derivative_path_of(
            project,
            identity2,
            width2,
            height2,
        ),
    ensures
        identity1 == identity2,
        width1 == width2,
        height1 == height2,
{
    let name1 = derivative_name_of(identity1, width1, height1);
    let name2 = derivative_name_of(identity2, width2, height2);
    let front = if project.len() == 0 {
        "upload_thumbs"@ + seq!['/']
    } else {
        "upload_thumbs"@ + seq!['/'] + project + seq!['/']
    };
    let path1 = derivative_path_of(project, identity1, width1, height1);
    let path2 = derivative_path_of(project, identity2, width2, height2);
    assert(path1 =~= front + name1);
    assert(path2 =~= front + name2);
    assert(name1 =~= (front + name1).subrange(front.len() as int, (front + name1).len() as int));
    assert(name2 =~= (front + name2).subrange(front.len() as int, (front + name2).len() as int));
    derivative_name_is_one_to_one(identity1, width1, height1, identity2, width2, height2);
}

/// The text holds no `/`, so it names nothing below or above its directory.
pub open spec fn no_slash(text: Seq<char>) -> bool {
    forall|i: int| 0 <= i < text.len() ==> #[trigger] text[i] != '/'
}

/// Under one directory, a path stands for one project and one name, where
/// the names hold no `/`.
pub proof fn scoped_is_one_to_one(
    dir: Seq<char>,
    project1: Seq<char>,
    name1: Seq<char>,
    project2: Seq<char>,
    name2: Seq<char>,
)
    requires
        scoped(dir, project1, name1) == scoped(dir, project2, name2),
        no_slash(name1),
        no_slash(name2),
    ensures
        project1 == project2,
        name1 == name2,
{
    let head1 = if project1.len() == 0 {
        dir
    } else {
        dir + seq!['/'] + project1
    };
    let head2 = if project2.len() == 0 {
        dir
    } else {
        dir + seq!['/'] + project2
    };
    assert(scoped(dir, project1, name1) =~= head1 + seq!['/'] + name1);
    assert(scoped(dir, project2, name2) =~= head2 + seq!['/'] + name2);
    split_at_last_mark(head1, name1, head2, name2, '/');
    if project1.len() > 0 && project2.len() > 0 {
        assert(project1 =~= head1.subrange(dir.len() as int + 1, head1.len() as int));
        assert(project2 =~= head2.subrange(dir.len() as int + 1, head2.len() as int));
    } else {
        assert(head1.len() == head2.len());
        assert(project1 =~= project2);
    }
}

/// A derivative's name holds no `/` where the identity holds none.
pub proof fn derivative_name_has_no_slash(identity: Seq<char>, width: u32, height: u32)
    requires
        no_slash(identity),
    ensures
        no_slash(derivative_name_of(identity, width, height)),
{
    decimal_is_digits(width as nat);
    decimal_is_digits(height as nat);
    let w = decimal(width as nat);
    let h = decimal(height as nat);
    let name = derivative_name_of(identity, width, height);
    assert forall|i: int| 0 <= i < name.len() implies #[trigger] name[i] != '/' by {
        if i < identity.len() {
            assert(name[i] == identity[i]);
        } else if i == identity.len() {
            assert(name[i] == '-');
        } else if i < identity.len() + 1 + w.len() {
            assert(name[i] == w[i - identity.len() - 1]);
        } else if i == identity.len() + 1 + w.len() {
            assert(name[i] == 'x');
        } else {
            assert(name[i] == h[i - identity.len() - 2 - w.len()]);
        }
    }
}

/// A derivative's path stands for one key only, across projects too, where
/// the identities hold no `/`.
pub proof fn derivative_path_names_one_key(
    project1: Seq<char>,
    identity1: Seq<char>,
    width1: u32,
    height1: u32,
    project2: Seq<char>,
    identity2: Seq<char>,
    width2: u32,
    height2: u32,
)
    requires
        no_slash(identity1),
        no_slash(identity2),
        derivative_path_of(project1, identity1, width1, height1) == derivative_path_of(
            project2,
            identity2,
            width2,
            height2,
        ),
    ensures
        project1 == project2,
        identity1 == identity2,
        width1 == width2,
        height1 == height2,
{
    derivative_name_has_no_slash(identity1, width1, height1);
    derivative_name_has_no_slash(identity2, width2, height2);
    scoped_is_one_to_one(
        "upload_thumbs"@,
        project1,
        derivative_name_of(identity1, width1, height1),
        project2,
        derivative_name_of(identity2, width2, height2),
    );
    derivative_name_is_one_to_one(identity1, width1, height1, identity2, width2, height2);
}

/// An original's path stands for one project and one identity, where the
/// identities hold no `/`.
pub proof fn original_path_is_one_to_one(
    project1: Seq<char>,
    identity1: Seq<char>,
    project2: Seq<char>,
    identity2: Seq<char>,
)
    requires
        no_slash(identity1),
        no_slash(identity2),
        original_path_of(project1, identity1) == original_path_of(project2, identity2),
    ensures
        project1 == project2,
        identity1 == identity2,
{
    reveal_strlit(".jpg");
    let name1 = identity1 + ".jpg"@;
    let name2 = identity2 + ".jpg"@;
    assert forall|i: int| 0 <= i < name1.len() implies #[trigger] name1[i] != '/' by {
        if i < identity1.len() {
            assert(name1[i] == identity1[i]);
        }
    }
    assert forall|i: int| 0 <= i < name2.len() implies #[trigger] name2[i] != '/' by {
        if i < identity2.len() {
            assert(name2[i] == identity2[i]);
        }
    }
    scoped_is_one_to_one("upload_files"@, project1, name1, project2, name2);
    assert(identity1 =~= name1.subrange(0, name1.len() - 4));
    assert(identity2 =~= name2.subrange(0, name2.len() - 4));
}

/// A history log's path stands for one project, whatever the project holds.
pub proof fn history_path_is_one_to_one(project1: Seq<char>, project2: Seq<char>)
    requires
        history_path_of(project1) == history_path_of(project2),
    ensures
        project1 == project2,
{
    let front = "stacks"@ + seq!['/'];
    let path1 = history_path_of(project1);
    let path2 = history_path_of(project2);
    assert(path1 =~= front + project1 + ".stack"@);
    assert(path2 =~= front + project2 + ".stack"@);
    assert(path1.len() == front.len() + project1.len() + ".stack"@.len());
    assert(path2.len() == front.len() + project2.len() + ".stack"@.len());
    assert(project1 =~= path1.subrange(front.len() as int, front.len() as int + project1.len() as int));
    assert(project2 =~= path2.subrange(front.len() as int, front.len() as int + project2.len() as int));
}

/// A derivative is never staged at the place of a derivative: a staging path
/// ends in a letter, a derivative's path in a digit.
pub proof fn staging_is_no_derivative(
    token: Seq<char>,
    project: Seq<char>,
    identity: Seq<char>,
    width: u32,
    height: u32,
)
    ensures
        staging_path_of(token) != derivative_path_of(project, identity, width, height),
{
    reveal_strlit(".jpg");
    decimal_is_digits(height as nat);
    let staging = staging_path_of(token);
    let target = derivative_path_of(project, identity, width, height);
    let numeral = decimal(height as nat);
    assert(staging[staging.len() - 1] == 'g');
    assert(target[target.len() - 1] == numeral[numeral.len() - 1]);
}

/// A history log is never staged at the place of a log.
pub proof fn history_staging_is_no_log(token: Seq<char>, project: Seq<char>)
    ensures
        history_staging_path_of(token) != history_path_of(project),
{
    reveal_strlit(".tmp");
    reveal_strlit(".stack");
    let staging = history_staging_path_of(token);
    let target = history_path_of(project);
    assert(staging[staging.len() - 1] == 'p');
    assert(target[target.len() - 1] == 'k');
}

fn digit_text(d: u32) -> (r: &'static str)
    requires
        d < 10,
    ensures
        r@ == seq![digit(d as nat)],
{
    let r = if d == 0 {
        "0"
    } else if d == 1 {
        "1"
    } else if d == 2 {
        "2"
    } else if d == 3 {
        "3"
    } else if d == 4 {
        "4"
    } else if d == 5 {
        "5"
    } else if d == 6 {
        "6"
    } else if d == 7 {
        "7"
    } else if d == 8 {
        "8"
    } else {
        "9"
    };
    proof {
        reveal_strlit("0");
        reveal_strlit("1");
        reveal_strlit("2");
        reveal_strlit("3");
        reveal_strlit("4");
        reveal_strlit("5");
        reveal_strlit("6");
        reveal_strlit("7");
        reveal_strlit("8");
        reveal_strlit("9");
        assert(r@ =~= seq![digit(d as nat)]);
    }
    r
}

/// Writes `n` in decimal.
pub fn decimal_text(n: u32) -> (r: String)
    ensures
        r@ == decimal(n as nat),
    decreases n,
{
    if n < 10 {
        String::from_str(digit_text(n))
    } else {
        let r = decimal_text(n / 10).concat(digit_text(n % 10));
        proof {
            assert(r@ =~= decimal((n / 10) as nat).push(digit((n % 10) as nat)));
        }
        r
    }
}

/// Joins a directory, an optional project and a name with `/`. An empty
/// project stands for the single-project layout, which has no project level.
pub fn scoped_path(dir: &str, project: &str, name: &str) -> (r: String)
    ensures
        r@ == scoped(dir@, project@, name@),
{
    proof {
        reveal_strlit("/");
        assert("/"@ =~= seq!['/']);
    }
    let mut r = String::from_str(dir);
    r.append("/");
    if !project.is_empty() {
        r.append(project);
        r.append("/");
    }
    r.append(name);
    r
}

/// The name of the derivative of `identity` at `width` by `height`.
pub fn derivative_name(identity: &str, width: u32, height: u32) -> (r: String)
    ensures
        r@ == derivative_name_of(identity@, width, height),
{
    proof {
        reveal_strlit("-");
        reveal_strlit("x");
        assert("-"@ =~= seq!['-']);
        assert("x"@ =~= seq!['x']);
    }
    let w = decimal_text(width);
    let h = decimal_text(height);
    let mut r = String::from_str(identity);
    r.append("-");
    r.append(w.as_str());
    r.append("x");
    r.append(h.as_str());
    r
}

/// The path of the original of `identity` in `project`.
pub fn original_path(project: &str, identity: &str) -> (r: String)
    ensures
        r@ == original_path_of(project@, identity@),
{
    let mut name = String::from_str(identity);
    name.append(".jpg");
    scoped_path("upload_files", project, name.as_str())
}

/// The path of the derivative of `identity` in `project` at `width` by `height`.
pub fn derivative_path(project: &str, identity: &str, width: u32, height: u32) -> (r: String)
    ensures
        r@ == derivative_path_of(project@, identity@, width, height),
{
    let name = derivative_name(identity, width, height);
    scoped_path("upload_thumbs", project, name.as_str())
}

/// The path at which a derivative is written in full before it is moved to
/// its final place; `token` is a name that no other writer uses.
pub fn staging_path(token: &str) -> (r: String)
    ensures
        r@ == staging_path_of(token@),
{
    let mut name = String::from_str(token);
    name.append(".jpg");
    let r = scoped_path("upload_thumbs", "", name.as_str());
    proof {
        reveal_strlit("");
        assert(""@ =~= Seq::<char>::empty());
    }
    r
}

/// The path of the history log of `project`.
pub fn history_path(project: &str) -> (r: String)
    ensures
        r@ == history_path_of(project@),
{
    let mut name = String::from_str(project);
    name.append(".stack");
    let r = scoped_path("stacks", "", name.as_str());
    proof {
        reveal_strlit("");
        assert(""@ =~= Seq::<char>::empty());
    }
    r
}

/// The path at which a history log is written in full before it replaces the
/// stored one; `token` is a name that no other writer uses.
pub fn history_staging_path(token: &str) -> (r: String)
    ensures
        r@ == history_staging_path_of(token@),
{
    let mut name = String::from_str(token);
    name.append(".tmp");
    let r = scoped_path("stacks", "", name.as_str());
    proof {
        reveal_strlit("");
        assert(""@ =~= Seq::<char>::empty());
    }
    r
}

} // verus!
