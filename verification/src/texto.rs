//! Text helpers: decimal rendering and reading of integers, comparisons,
//! and splitting a search filter into words.
use vstd::prelude::*;

use crate::error::AppError;

verus! {

/// The character of a decimal digit `d` (0 to 9).
pub open spec fn digito(d: int) -> char {
    (d + 48) as char
}

/// Decimal digits of a natural number, most significant first, no leading zeros.
pub open spec fn digitos(n: nat) -> Seq<char>
    decreases n,
{
    if n < 10 {
        seq![digito(n as int)]
    } else {
        digitos(n / 10).push(digito((n % 10) as int))
    }
}

/// Decimal text of an integer, with a leading `-` for negative values.
pub open spec fn decimal(n: int) -> Seq<char> {
    if n < 0 {
        seq!['-'] + digitos((-n) as nat)
    } else {
        digitos(n as nat)
    }
}

fn texto_digito(d: u64) -> (res: &'static str)
    requires
        d < 10,
    ensures
        res@ == seq![digito(d as int)],
{
    proof {
        reveal_strlit("0");
        reveal_strlit("1");
        reveal_strlit("2");
        reveal_strlit("3");
        reveal_strlit("4");
        reveal_strlit("5");
        reveal_strlit("6");
        reveal_strlit("7");
        reveal_strlit("8");
        reveal_strlit("9");
    }
    match d {
        0 => "0",
        1 => "1",
        2 => "2",
        3 => "3",
        4 => "4",
        5 => "5",
        6 => "6",
        7 => "7",
        8 => "8",
        _ => "9",
    }
}

fn escribir_digitos(m: u64, s: &mut String)
    ensures
        final(s)@ == old(s)@ + digitos(m as nat),
    decreases m,
{
    if m >= 10 {
        escribir_digitos(m / 10, s);
    }
    s.append(texto_digito(m % 10));
    proof {
        if m >= 10 {
            assert(digitos(m as nat) == digitos((m / 10) as nat).push(digito((m % 10) as int)));
        }
    }
    assert(s@ =~= old(s)@ + digitos(m as nat));
}

/// Decimal text of `n`, as `n.to_string()` writes it.
pub fn texto_entero(n: i64) -> (res: String)
    ensures
        res@ == decimal(n as int),
{
    let mut s = String::new();
    if n < 0 {
        proof {
            reveal_strlit("-");
        }
        s.append("-");
        let m: u64 = (0i128 - (n as i128)) as u64;
        escribir_digitos(m, &mut s);
    } else {
        escribir_digitos(n as u64, &mut s);
    }
    assert(s@ =~= decimal(n as int));
    s
}

/// Decimal text of a natural number, as `n.to_string()` writes it.
pub fn texto_natural(n: u64) -> (res: String)
    ensures
        res@ == decimal(n as int),
{
    let mut s = String::new();
    escribir_digitos(n, &mut s);
    assert(s@ =~= decimal(n as int));
    s
}

/// Equality of two texts, character by character.
pub fn iguales(a: &str, b: &str) -> (res: bool)
    ensures
        res == (a@ == b@),
{
    let x = a.to_owned();
    let y = b.to_owned();
    x == y
}

/// Code of the ASCII lower case of a character; other characters keep their code.
pub open spec fn minuscula(c: char) -> int {
    if 'A' <= c && c <= 'Z' {
        (c as int) + 32
    } else {
        c as int
    }
}

/// Two texts are equal when ASCII letters are compared without case.
pub open spec fn iguales_sin_mayusculas(a: Seq<char>, b: Seq<char>) -> bool {
    &&& a.len() == b.len()
    &&& forall|i: int| 0 <= i < a.len() ==> #[trigger] minuscula(a[i]) == minuscula(b[i])
}

fn minuscula_exec(c: char) -> (res: u32)
    ensures
        res as int == minuscula(c),
{
    let v = c as u32;
    if 65 <= v && v <= 90 {
        v + 32
    } else {
        v
    }
}

/// Comparison of two texts that ignores the case of ASCII letters,
/// as `str::eq_ignore_ascii_case` does.
pub fn iguales_ignorando_mayusculas(a: &str, b: &str) -> (res: bool)
    ensures
        res == iguales_sin_mayusculas(a@, b@),
{
    let n = a.unicode_len();
    let m = b.unicode_len();
    if n != m {
        return false;
    }
    let mut i: usize = 0;
    while i < n
        invariant
            n == a@.len(),
            m == b@.len(),
            n == m,
            i <= n,
            forall|j: int| 0 <= j < i ==> #[trigger] minuscula(a@[j]) == minuscula(b@[j]),
        decreases n - i,
    {
        let ca = a.get_char(i);
        let cb = b.get_char(i);
        if minuscula_exec(ca) != minuscula_exec(cb) {
            return false;
        }
        i = i + 1;
    }
    true
}

/// A decimal digit character.
pub open spec fn es_digito(c: char) -> bool {
    '0' <= c && c <= '9'
}

/// Every character of `ds` is a decimal digit.
pub open spec fn solo_digitos(ds: Seq<char>) -> bool {
    forall|i: int| 0 <= i < ds.len() ==> #[trigger] es_digito(ds[i])
}

/// Value of a string of decimal digits.
pub open spec fn valor_digitos(ds: Seq<char>) -> int
    decreases ds.len(),
{
    if ds.len() == 0 {
        0
    } else {
        valor_digitos(ds.drop_last()) * 10 + ((ds.last() as int) - 48)
    }
}

/// A leading `-` in the text of an integer.
pub open spec fn con_signo_menos(s: Seq<char>) -> bool {
    s.len() > 0 && s[0] == '-'
}

/// The digits of the text of an integer: the text without its leading sign, if any.
pub open spec fn cuerpo(s: Seq<char>) -> Seq<char> {
    if s.len() > 0 && (s[0] == '-' || s[0] == '+') {
        s.skip(1)
    } else {
        s
    }
}

/// The value that the text of an integer denotes.
pub open spec fn valor_texto(s: Seq<char>) -> int {
    if con_signo_menos(s) {
        -valor_digitos(cuerpo(s))
    } else {
        valor_digitos(cuerpo(s))
    }
}

/// The text is an optional `+` or `-` followed by at least one decimal digit and
/// nothing else, and its value fits in an `i64`: the texts that `str::parse::<i64>` accepts.
pub open spec fn entero_valido(s: Seq<char>) -> bool {
    &&& cuerpo(s).len() > 0
    &&& solo_digitos(cuerpo(s))
    &&& i64::MIN <= valor_texto(s) <= i64::MAX
}

proof fn lemma_valor_creciente(ds: Seq<char>, k: int)
    requires
        solo_digitos(ds),
        0 <= k <= ds.len(),
    ensures
        valor_digitos(ds.take(k)) <= valor_digitos(ds),
        0 <= valor_digitos(ds.take(k)),
    decreases ds.len() - k,
{
    if k < ds.len() {
        lemma_valor_creciente(ds, k + 1);
        assert(ds.take(k + 1).drop_last() =~= ds.take(k));
        assert(es_digito(ds[k]));
    } else {
        assert(ds.take(k) =~= ds);
        lemma_valor_no_negativo(ds);
    }
}

proof fn lemma_valor_no_negativo(ds: Seq<char>)
    requires
        solo_digitos(ds),
    ensures
        0 <= valor_digitos(ds),
    decreases ds.len(),
{
    if ds.len() > 0 {
        assert(solo_digitos(ds.drop_last()));
        lemma_valor_no_negativo(ds.drop_last());
        assert(es_digito(ds[ds.len() - 1]));
    }
}

/// Reads a decimal integer as `str::parse::<i64>` does; `None` where it fails.
pub fn entero_desde_texto(s: &str) -> (res: Option<i64>)
    ensures
        res is Some <==> entero_valido(s@),
        res matches Some(v) ==> v as int == valor_texto(s@),
{
    let n = s.unicode_len();
    if n == 0 {
        return None;
    }
    let c0 = s.get_char(0);
    let neg = c0 == '-';
    let start: usize = if c0 == '-' || c0 == '+' { 1 } else { 0 };
    let ghost body = cuerpo(s@);
    assert(body =~= s@.subrange(start as int, n as int));
    if start == n {
        return None;
    }
    let limite: u64 = if neg { 9223372036854775808u64 } else { 9223372036854775807u64 };
    let mut acc: u64 = 0;
    let mut i: usize = start;
    while i < n
        invariant
            n == s@.len(),
            start <= i <= n,
            start <= 1,
            body == cuerpo(s@),
            body =~= s@.subrange(start as int, n as int),
            limite == (if neg { 9223372036854775808u64 } else { 9223372036854775807u64 }),
            neg == con_signo_menos(s@),
            acc <= limite,
            acc as int == valor_digitos(body.take(i - start)),
            solo_digitos(body.take(i - start)),
        decreases n - i,
    {
        let c = s.get_char(i);
        assert(body[i - start] == c);
        if !('0' <= c && c <= '9') {
            assert(!es_digito(body[i - start]));
            assert(!solo_digitos(body));
            return None;
        }
        let d: u64 = (c as u64) - 48;
        assert(d <= 9);
        assert(body.take(i + 1 - start).drop_last() =~= body.take(i - start));
        assert(solo_digitos(body.take(i + 1 - start)));
        if acc > (limite - d) / 10 {
            assert(acc * 10 + d > limite) by (nonlinear_arith)
                requires
                    acc > (limite - d) / 10,
                    d <= limite,
            ;
            proof {
                if solo_digitos(body) {
                    lemma_valor_creciente(body, i + 1 - start);
                }
            }
            return None;
        }
        assert(acc * 10 + d <= limite) by (nonlinear_arith)
            requires
                acc <= (limite - d) / 10,
                d <= limite,
        ;
        acc = acc * 10 + d;
        i = i + 1;
    }
    assert(body.take(n - start) =~= body);
    if neg {
        Some((0i128 - (acc as i128)) as i64)
    } else {
        Some(acc as i64)
    }
}

/// Reading `s` from the left, cutting at every space: the words already closed and
/// the word in progress.
pub open spec fn cortes(s: Seq<char>) -> (Seq<Seq<char>>, Seq<char>)
    decreases s.len(),
{
    if s.len() == 0 {
        (seq![], seq![])
    } else {
        let (cerradas, actual) = cortes(s.drop_last());
        if s.last() == ' ' {
            if actual.len() > 0 {
                (cerradas.push(actual), seq![])
            } else {
                (cerradas, seq![])
            }
        } else {
            (cerradas, actual.push(s.last()))
        }
    }
}

/// The non-empty pieces of `s` between spaces, in order: what
/// `s.split(' ').filter(|p| p.len() > 0)` yields.
pub open spec fn palabras(s: Seq<char>) -> Seq<Seq<char>> {
    let (cerradas, actual) = cortes(s);
    if actual.len() > 0 {
        cerradas.push(actual)
    } else {
        cerradas
    }
}

/// A word: non-empty and without spaces.
pub open spec fn es_palabra(w: Seq<char>) -> bool {
    w.len() > 0 && !w.contains(' ')
}

proof fn lemma_cortes(s: Seq<char>)
    ensures
        forall|k: int| 0 <= k < cortes(s).0.len() ==> #[trigger] es_palabra(cortes(s).0[k]),
        !cortes(s).1.contains(' '),
    decreases s.len(),
{
    if s.len() > 0 {
        lemma_cortes(s.drop_last());
        let (cerradas, actual) = cortes(s.drop_last());
        if s.last() != ' ' {
            assert forall|j: int| 0 <= j < actual.push(s.last()).len() implies actual.push(
                s.last(),
            )[j] != ' ' by {
                if j < actual.len() {
                    assert(actual.push(s.last())[j] == actual[j]);
                }
            }
        }
    }
}

/// Every piece of `palabras(s)` is a word.
pub proof fn lemma_palabras(s: Seq<char>)
    ensures
        forall|k: int| 0 <= k < palabras(s).len() ==> #[trigger] es_palabra(palabras(s)[k]),
{
    lemma_cortes(s);
}

/// The words of a search filter, split at spaces, empty pieces left out.
pub fn dividir_filtro(filtro: &str) -> (res: Vec<String>)
    ensures
        res@.map_values(|w: String| w@) == palabras(filtro@),
        forall|k: int| 0 <= k < res.len() ==> #[trigger] es_palabra(res@[k]@),
{
    let n = filtro.unicode_len();
    let mut res: Vec<String> = Vec::new();
    let mut inicio: usize = 0;
    let mut i: usize = 0;
    while i < n
        invariant
            n == filtro@.len(),
            inicio <= i <= n,
            res@.map_values(|w: String| w@) == cortes(filtro@.take(i as int)).0,
            filtro@.subrange(inicio as int, i as int) == cortes(filtro@.take(i as int)).1,
        decreases n - i,
    {
        let c = filtro.get_char(i);
        assert(filtro@.take(i + 1).drop_last() =~= filtro@.take(i as int));
        assert(filtro@.take(i + 1).last() == c);
        if c == ' ' {
            if i > inicio {
                let w = filtro.substring_char(inicio, i).to_owned();
                res.push(w);
                assert(res@.map_values(|w: String| w@) =~= cortes(filtro@.take(i as int)).0.push(
                    filtro@.subrange(inicio as int, i as int),
                ));
            }
            inicio = i + 1;
            assert(filtro@.subrange(inicio as int, i + 1) =~= Seq::<char>::empty());
        } else {
            assert(filtro@.subrange(inicio as int, i + 1) =~= filtro@.subrange(
                inicio as int,
                i as int,
            ).push(c));
        }
        i = i + 1;
    }
    assert(filtro@.take(n as int) =~= filtro@);
    if n > inicio {
        let w = filtro.substring_char(inicio, n).to_owned();
        res.push(w);
        assert(res@.map_values(|w: String| w@) =~= cortes(filtro@).0.push(
            filtro@.subrange(inicio as int, n as int),
        ));
    }
    proof {
        lemma_palabras(filtro@);
        assert forall|k: int| 0 <= k < res.len() implies #[trigger] es_palabra(res@[k]@) by {
            assert(res@.map_values(|w: String| w@)[k] == res@[k]@);
            assert(es_palabra(palabras(filtro@)[k]));
        }
    }
    res
}

proof fn lemma_digitos(m: nat)
    ensures
        digitos(m).len() > 0,
        solo_digitos(digitos(m)),
        valor_digitos(digitos(m)) == m,
    decreases m,
{
    if m < 10 {
        assert(digitos(m).drop_last() =~= Seq::<char>::empty());
        assert(digito(m as int) as int == m + 48);
        assert(digitos(m).last() == digito(m as int));
        assert(valor_digitos(digitos(m)) == valor_digitos(digitos(m).drop_last()) * 10 + ((
        digitos(m).last() as int) - 48));
    } else {
        lemma_digitos(m / 10);
        let d = digitos(m / 10);
        assert(digitos(m).drop_last() =~= d);
        assert(digito((m % 10) as int) as int == (m % 10) + 48);
        assert(digitos(m).last() == digito((m % 10) as int));
        assert(valor_digitos(digitos(m)) == valor_digitos(d) * 10 + ((digitos(m).last() as int)
            - 48));
        assert((m / 10) * 10 + m % 10 == m);
        assert forall|i: int| 0 <= i < digitos(m).len() implies #[trigger] es_digito(
            digitos(m)[i],
        ) by {
            if i < d.len() {
                assert(digitos(m)[i] == d[i]);
            }
        }
    }
}

/// The decimal text of an integer reads back as the same integer: what `texto_entero`
/// writes, `entero_desde_texto` reads.
pub proof fn lemma_texto_entero_se_lee(n: int)
    requires
        i64::MIN <= n <= i64::MAX,
    ensures
        entero_valido(decimal(n)),
        valor_texto(decimal(n)) == n,
{
    if n < 0 {
        lemma_digitos((-n) as nat);
        assert(cuerpo(decimal(n)) =~= digitos((-n) as nat));
    } else {
        lemma_digitos(n as nat);
        let d = digitos(n as nat);
        assert(es_digito(d[0]));
        assert(cuerpo(decimal(n)) == d);
    }
}

/// The number of `*` in a text.
pub open spec fn asteriscos(s: Seq<char>) -> nat
    decreases s.len(),
{
    if s.len() == 0 {
        0
    } else {
        asteriscos(s.drop_last()) + if s.last() == '*' {
            1nat
        } else {
            0nat
        }
    }
}

proof fn lemma_asteriscos_suma(a: Seq<char>, b: Seq<char>)
    ensures
        asteriscos(a + b) == asteriscos(a) + asteriscos(b),
    decreases b.len(),
{
    if b.len() == 0 {
        assert(a + b =~= a);
    } else {
        lemma_asteriscos_suma(a, b.drop_last());
        assert((a + b).drop_last() =~= a + b.drop_last());
    }
}

/// A quantity typed before a barcode in the search box, `cantidad*codigo`
/// (`Sistema::splitx`): the text of the quantity, if any, and the text after it. Without
/// a `*` there is no quantity (it counts as one); a text with more than one `*` is refused
/// with `ParseError`.
pub fn partir_cantidad(filtro: &str) -> (res: Result<(Option<String>, String), AppError>)
    ensures
        asteriscos(filtro@) == 0 ==> (res matches Ok((None, r)) && r@ == filtro@),
        asteriscos(filtro@) == 1 ==> (res matches Ok((Some(c), r)) && c@ + seq!['*'] + r@
            == filtro@ && asteriscos(c@) == 0 && asteriscos(r@) == 0),
        asteriscos(filtro@) > 1 ==> (res matches Err(AppError::ParseError)),
{
    let n = filtro.unicode_len();
    let mut primero: Option<usize> = None;
    let mut i: usize = 0;
    while i < n
        invariant
            n == filtro@.len(),
            i <= n,
            asteriscos(filtro@.take(i as int)) <= 1,
            primero is None <==> asteriscos(filtro@.take(i as int)) == 0,
            primero matches Some(p) ==> p < i && filtro@[p as int] == '*' && asteriscos(
                filtro@.take(p as int),
            ) == 0,
        decreases n - i,
    {
        let c = filtro.get_char(i);
        assert(filtro@.take(i + 1).drop_last() =~= filtro@.take(i as int));
        assert(filtro@.take(i + 1).last() == c);
        if c == '*' {
            if primero.is_some() {
                proof {
                    let k = i as int + 1;
                    assert(filtro@ =~= filtro@.take(k) + filtro@.skip(k));
                    lemma_asteriscos_suma(filtro@.take(k), filtro@.skip(k));
                }
                return Err(AppError::ParseError);
            }
            primero = Some(i);
        }
        i = i + 1;
    }
    assert(filtro@.take(n as int) =~= filtro@);
    match primero {
        None => Ok((None, filtro.to_owned())),
        Some(p) => {
            let cantidad = filtro.substring_char(0, p).to_owned();
            let resto = filtro.substring_char(p + 1, n).to_owned();
            proof {
                let a = filtro@.take(p as int);
                let b = filtro@.skip(p as int + 1);
                assert(cantidad@ =~= a);
                assert(resto@ =~= b);
                assert(filtro@ =~= a + seq!['*'] + b);
                lemma_asteriscos_suma(a + seq!['*'], b);
                lemma_asteriscos_suma(a, seq!['*']);
                assert(seq!['*'].drop_last() =~= Seq::<char>::empty());
            }
            Ok((Some(cantidad), resto))
        },
    }
}

} // verus!
