use vstd::prelude::*;

verus! {

/// The decimal digit `d` (for `d < 10`) as a character.
pub open spec fn digit_char(d: nat) -> char {
    if d == 0 {
        '0'
    } else if d == 1 {
        '1'
    } else if d == 2 {
        '2'
    } else if d == 3 {
        '3'
    } else if d == 4 {
        '4'
    } else if d == 5 {
        '5'
    } else if d == 6 {
        '6'
    } else if d == 7 {
        '7'
    } else if d == 8 {
        '8'
    } else {
        '9'
    }
}

/// The decimal notation of `n`, most significant digit first, without leading zeros.
pub open spec fn decimal(n: nat) -> Seq<char>
    decreases n,
{
    if n < 10 {
        seq![digit_char(n)]
    } else {
        decimal(n / 10) + seq![digit_char(n % 10)]
    }
}

fn digit_str(d: usize) -> (r: &'static str)
    requires
        d < 10,
    ensures
        r@ == seq![digit_char(d as nat)],
{
    if d == 0 {
        proof { reveal_strlit("0"); }
        "0"
    } else if d == 1 {
        proof { reveal_strlit("1"); }
        "1"
    } else if d == 2 {
        proof { reveal_strlit("2"); }
        "2"
    } else if d == 3 {
        proof { reveal_strlit("3"); }
        "3"
    } else if d == 4 {
        proof { reveal_strlit("4"); }
        "4"
    } else if d == 5 {
        proof { reveal_strlit("5"); }
        "5"
    } else if d == 6 {
        proof { reveal_strlit("6"); }
        "6"
    } else if d == 7 {
        proof { reveal_strlit("7"); }
        "7"
    } else if d == 8 {
        proof { reveal_strlit("8"); }
        "8"
    } else {
        proof { reveal_strlit("9"); }
        "9"
    }
}

/// Appends the decimal notation of `n` to `out`.
pub fn push_decimal(out: &mut String, n: usize)
    ensures
        final(out)@ == old(out)@ + decimal(n as nat),
    decreases n,
{
    if n >= 10 {
        push_decimal(out, n / 10);
    }
    out.append(digit_str(n % 10));
    assert(final(out)@ =~= old(out)@ + decimal(n as nat));
}

/// A source position: the file, line and column at which a value was made.
pub struct StaticLocationRef {
    file: String,
    line: u32,
    column: u32,
}

impl StaticLocationRef {
    /// The text of this position, `file:line:column`.
    pub open spec fn text(&self) -> Seq<char> {
        self.spec_file() + seq![':'] + decimal(self.spec_line() as nat) + seq![':'] + decimal(
            self.spec_column() as nat,
        )
    }

    /// The file of this position.
    pub closed spec fn spec_file(&self) -> Seq<char> {
        self.file@
    }

    /// The line of this position.
    pub closed spec fn spec_line(&self) -> u32 {
        self.line
    }

    /// The column of this position.
    pub closed spec fn spec_column(&self) -> u32 {
        self.column
    }

    /// Records a position given as plain values.
    pub fn new(file: &str, line: u32, column: u32) -> (r: StaticLocationRef)
        ensures
            r.spec_file() == file@,
            r.spec_line() == line,
            r.spec_column() == column,
    {
        StaticLocationRef { file: file.to_owned(), line, column }
    }

    /// The file of this position.
    pub fn file(&self) -> (r: &str)
        ensures
            r@ == self.spec_file(),
    {
        self.file.as_str()
    }

    /// The line of this position.
    pub fn line(&self) -> (r: u32)
        ensures
            r == self.spec_line(),
    {
        self.line
    }

    /// The column of this position.
    pub fn column(&self) -> (r: u32)
        ensures
            r == self.spec_column(),
    {
        self.column
    }

    /// Appends `file:line:column` to `out`.
    pub fn write_to(&self, out: &mut String)
        ensures
            final(out)@ == old(out)@ + self.text(),
    {
        out.append(self.file.as_str());
        proof { reveal_strlit(":"); }
        out.append(":");
        push_decimal(out, self.line as usize);
        out.append(":");
        push_decimal(out, self.column as usize);
        assert(final(out)@ =~= old(out)@ + self.text());
    }

    /// This position as `file:line:column`.
    pub fn render(&self) -> (r: String)
        ensures
            r@ == self.text(),
    {
        let mut out = String::new();
        self.write_to(&mut out);
        assert(out@ =~= self.text());
        out
    }
}

impl Clone for StaticLocationRef {
    fn clone(&self) -> (r: StaticLocationRef)
        ensures
            r.spec_file() == self.spec_file(),
            r.spec_line() == self.spec_line(),
            r.spec_column() == self.spec_column(),
    {
        StaticLocationRef { file: self.file.clone(), line: self.line, column: self.column }
    }
}

} // verus!
