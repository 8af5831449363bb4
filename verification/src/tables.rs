//! The static correspondence tables, as spec functions paired with
//! executable lookups proved equal to them.
//!
//! Each class (ASCII, digit, katakana) has a full-width-to-half-width
//! lookup (`..._zh`) and the reverse (`..._hz`). The voiced (dakuten)
//! and semi-voiced (handakuten) tables relate a single composed
//! full-width kana to the half-width base kana that, followed by the
//! standalone mark, denotes the same character.

use vstd::prelude::*;

verus! {

/// Full-width ASCII letters, punctuation and space to their half-width forms.
pub open spec fn spec_ascii_zh(c: char) -> Option<char> {
    if c == '\u{FF41}' {
        Some('a')
    } else if c == '\u{FF42}' {
        Some('b')
    } else if c == '\u{FF43}' {
        Some('c')
    } else if c == '\u{FF44}' {
        Some('d')
    } else if c == '\u{FF45}' {
        Some('e')
    } else if c == '\u{FF46}' {
        Some('f')
    } else if c == '\u{FF47}' {
        Some('g')
    } else if c == '\u{FF48}' {
        Some('h')
    } else if c == '\u{FF49}' {
        Some('i')
    } else if c == '\u{FF4A}' {
        Some('j')
    } else if c == '\u{FF4B}' {
        Some('k')
    } else if c == '\u{FF4C}' {
        Some('l')
    } else if c == '\u{FF4D}' {
        Some('m')
    } else if c == '\u{FF4E}' {
        Some('n')
    } else if c == '\u{FF4F}' {
        Some('o')
    } else if c == '\u{FF50}' {
        Some('p')
    } else if c == '\u{FF51}' {
        Some('q')
    } else if c == '\u{FF52}' {
        Some('r')
    } else if c == '\u{FF53}' {
        Some('s')
    } else if c == '\u{FF54}' {
        Some('t')
    } else if c == '\u{FF55}' {
        Some('u')
    } else if c == '\u{FF56}' {
        Some('v')
    } else if c == '\u{FF57}' {
        Some('w')
    } else if c == '\u{FF58}' {
        Some('x')
    } else if c == '\u{FF59}' {
        Some('y')
    } else if c == '\u{FF5A}' {
        Some('z')
    } else if c == '\u{FF21}' {
        Some('A')
    } else if c == '\u{FF22}' {
        Some('B')
    } else if c == '\u{FF23}' {
        Some('C')
    } else if c == '\u{FF24}' {
        Some('D')
    } else if c == '\u{FF25}' {
        Some('E')
    } else if c == '\u{FF26}' {
        Some('F')
    } else if c == '\u{FF27}' {
        Some('G')
    } else if c == '\u{FF28}' {
        Some('H')
    } else if c == '\u{FF29}' {
        Some('I')
    } else if c == '\u{FF2A}' {
        Some('J')
    } else if c == '\u{FF2B}' {
        Some('K')
    } else if c == '\u{FF2C}' {
        Some('L')
    } else if c == '\u{FF2D}' {
        Some('M')
    } else if c == '\u{FF2E}' {
        Some('N')
    } else if c == '\u{FF2F}' {
        Some('O')
    } else if c == '\u{FF30}' {
        Some('P')
    } else if c == '\u{FF31}' {
        Some('Q')
    } else if c == '\u{FF32}' {
        Some('R')
    } else if c == '\u{FF33}' {
        Some('S')
    } else if c == '\u{FF34}' {
        Some('T')
    } else if c == '\u{FF35}' {
        Some('U')
    } else if c == '\u{FF36}' {
        Some('V')
    } else if c == '\u{FF37}' {
        Some('W')
    } else if c == '\u{FF38}' {
        Some('X')
    } else if c == '\u{FF39}' {
        Some('Y')
    } else if c == '\u{FF3A}' {
        Some('Z')
    } else if c == '\u{FF01}' {
        Some('!')
    } else if c == '\u{FF02}' {
        Some('"')
    } else if c == '\u{FF03}' {
        Some('#')
    } else if c == '\u{FF04}' {
        Some('$')
    } else if c == '\u{FF05}' {
        Some('%')
    } else if c == '\u{FF06}' {
        Some('&')
    } else if c == '\u{FF07}' {
        Some('\'')
    } else if c == '\u{FF08}' {
        Some('(')
    } else if c == '\u{FF09}' {
        Some(')')
    } else if c == '\u{FF0A}' {
        Some('*')
    } else if c == '\u{FF0B}' {
        Some('+')
    } else if c == '\u{FF0C}' {
        Some(',')
    } else if c == '\u{FF0D}' {
        Some('-')
    } else if c == '\u{FF0E}' {
        Some('.')
    } else if c == '\u{FF0F}' {
        Some('/')
    } else if c == '\u{FF1A}' {
        Some(':')
    } else if c == '\u{FF1B}' {
        Some(';')
    } else if c == '\u{FF1C}' {
        Some('<')
    } else if c == '\u{FF1D}' {
        Some('=')
    } else if c == '\u{FF1E}' {
        Some('>')
    } else if c == '\u{FF1F}' {
        Some('?')
    } else if c == '\u{FF20}' {
        Some('@')
    } else if c == '\u{FF3B}' {
        Some('[')
    } else if c == '\u{FFE5}' {
        Some('\\')
    } else if c == '\u{FF3D}' {
        Some(']')
    } else if c == '\u{FF3E}' {
        Some('^')
    } else if c == '\u{FF3F}' {
        Some('_')
    } else if c == '\u{FF40}' {
        Some('`')
    } else if c == '\u{FF5B}' {
        Some('{')
    } else if c == '\u{FF5C}' {
        Some('|')
    } else if c == '\u{FF5D}' {
        Some('}')
    } else if c == '\u{FF5E}' {
        Some('~')
    } else if c == '\u{3000}' {
        Some(' ')
    } else if c == '\u{FF3C}' {
        Some('\\')
    } else {
        None
    }
}

/// Half-width ASCII letters, punctuation and space to their full-width forms.
pub open spec fn spec_ascii_hz(c: char) -> Option<char> {
    if c == 'a' {
        Some('\u{FF41}')
    } else if c == 'b' {
        Some('\u{FF42}')
    } else if c == 'c' {
        Some('\u{FF43}')
    } else if c == 'd' {
        Some('\u{FF44}')
    } else if c == 'e' {
        Some('\u{FF45}')
    } else if c == 'f' {
        Some('\u{FF46}')
    } else if c == 'g' {
        Some('\u{FF47}')
    } else if c == 'h' {
        Some('\u{FF48}')
    } else if c == 'i' {
        Some('\u{FF49}')
    } else if c == 'j' {
        Some('\u{FF4A}')
    } else if c == 'k' {
        Some('\u{FF4B}')
    } else if c == 'l' {
        Some('\u{FF4C}')
    } else if c == 'm' {
        Some('\u{FF4D}')
    } else if c == 'n' {
        Some('\u{FF4E}')
    } else if c == 'o' {
        Some('\u{FF4F}')
    } else if c == 'p' {
        Some('\u{FF50}')
    } else if c == 'q' {
        Some('\u{FF51}')
    } else if c == 'r' {
        Some('\u{FF52}')
    } else if c == 's' {
        Some('\u{FF53}')
    } else if c == 't' {
        Some('\u{FF54}')
    } else if c == 'u' {
        Some('\u{FF55}')
    } else if c == 'v' {
        Some('\u{FF56}')
    } else if c == 'w' {
        Some('\u{FF57}')
    } else if c == 'x' {
        Some('\u{FF58}')
    } else if c == 'y' {
        Some('\u{FF59}')
    } else if c == 'z' {
        Some('\u{FF5A}')
    } else if c == 'A' {
        Some('\u{FF21}')
    } else if c == 'B' {
        Some('\u{FF22}')
    } else if c == 'C' {
        Some('\u{FF23}')
    } else if c == 'D' {
        Some('\u{FF24}')
    } else if c == 'E' {
        Some('\u{FF25}')
    } else if c == 'F' {
        Some('\u{FF26}')
    } else if c == 'G' {
        Some('\u{FF27}')
    } else if c == 'H' {
        Some('\u{FF28}')
    } else if c == 'I' {
        Some('\u{FF29}')
    } else if c == 'J' {
        Some('\u{FF2A}')
    } else if c == 'K' {
        Some('\u{FF2B}')
    } else if c == 'L' {
        Some('\u{FF2C}')
    } else if c == 'M' {
        Some('\u{FF2D}')
    } else if c == 'N' {
        Some('\u{FF2E}')
    } else if c == 'O' {
        Some('\u{FF2F}')
    } else if c == 'P' {
        Some('\u{FF30}')
    } else if c == 'Q' {
        Some('\u{FF31}')
    } else if c == 'R' {
        Some('\u{FF32}')
    } else if c == 'S' {
        Some('\u{FF33}')
    } else if c == 'T' {
        Some('\u{FF34}')
    } else if c == 'U' {
        Some('\u{FF35}')
    } else if c == 'V' {
        Some('\u{FF36}')
    } else if c == 'W' {
        Some('\u{FF37}')
    } else if c == 'X' {
        Some('\u{FF38}')
    } else if c == 'Y' {
        Some('\u{FF39}')
    } else if c == 'Z' {
        Some('\u{FF3A}')
    } else if c == '!' {
        Some('\u{FF01}')
    } else if c == '"' {
        Some('\u{FF02}')
    } else if c == '#' {
        Some('\u{FF03}')
    } else if c == '$' {
        Some('\u{FF04}')
    } else if c == '%' {
        Some('\u{FF05}')
    } else if c == '&' {
        Some('\u{FF06}')
    } else if c == '\'' {
        Some('\u{FF07}')
    } else if c == '(' {
        Some('\u{FF08}')
    } else if c == ')' {
        Some('\u{FF09}')
    } else if c == '*' {
        Some('\u{FF0A}')
    } else if c == '+' {
        Some('\u{FF0B}')
    } else if c == ',' {
        Some('\u{FF0C}')
    } else if c == '-' {
        Some('\u{FF0D}')
    } else if c == '.' {
        Some('\u{FF0E}')
    } else if c == '/' {
        Some('\u{FF0F}')
    } else if c == ':' {
        Some('\u{FF1A}')
    } else if c == ';' {
        Some('\u{FF1B}')
    } else if c == '<' {
        Some('\u{FF1C}')
    } else if c == '=' {
        Some('\u{FF1D}')
    } else if c == '>' {
        Some('\u{FF1E}')
    } else if c == '?' {
        Some('\u{FF1F}')
    } else if c == '@' {
        Some('\u{FF20}')
    } else if c == '[' {
        Some('\u{FF3B}')
    } else if c == '\\' {
        Some('\u{FF3C}')
    } else if c == ']' {
        Some('\u{FF3D}')
    } else if c == '^' {
        Some('\u{FF3E}')
    } else if c == '_' {
        Some('\u{FF3F}')
    } else if c == '`' {
        Some('\u{FF40}')
    } else if c == '{' {
        Some('\u{FF5B}')
    } else if c == '|' {
        Some('\u{FF5C}')
    } else if c == '}' {
        Some('\u{FF5D}')
    } else if c == '~' {
        Some('\u{FF5E}')
    } else if c == ' ' {
        Some('\u{3000}')
    } else {
        None
    }
}

/// Full-width digits to half-width digits.
pub open spec fn spec_digit_zh(c: char) -> Option<char> {
    if c == '\u{FF10}' {
        Some('0')
    } else if c == '\u{FF11}' {
        Some('1')
    } else if c == '\u{FF12}' {
        Some('2')
    } else if c == '\u{FF13}' {
        Some('3')
    } else if c == '\u{FF14}' {
        Some('4')
    } else if c == '\u{FF15}' {
        Some('5')
    } else if c == '\u{FF16}' {
        Some('6')
    } else if c == '\u{FF17}' {
        Some('7')
    } else if c == '\u{FF18}' {
        Some('8')
    } else if c == '\u{FF19}' {
        Some('9')
    } else {
        None
    }
}

/// Half-width digits to full-width digits.
pub open spec fn spec_digit_hz(c: char) -> Option<char> {
    if c == '0' {
        Some('\u{FF10}')
    } else if c == '1' {
        Some('\u{FF11}')
    } else if c == '2' {
        Some('\u{FF12}')
    } else if c == '3' {
        Some('\u{FF13}')
    } else if c == '4' {
        Some('\u{FF14}')
    } else if c == '5' {
        Some('\u{FF15}')
    } else if c == '6' {
        Some('\u{FF16}')
    } else if c == '7' {
        Some('\u{FF17}')
    } else if c == '8' {
        Some('\u{FF18}')
    } else if c == '9' {
        Some('\u{FF19}')
    } else {
        None
    }
}

/// Full-width plain katakana and kana punctuation to their half-width forms.
pub open spec fn spec_kana_zh(c: char) -> Option<char> {
    if c == '\u{30A2}' {
        Some('\u{FF71}')
    } else if c == '\u{30A4}' {
        Some('\u{FF72}')
    } else if c == '\u{30A6}' {
        Some('\u{FF73}')
    } else if c == '\u{30A8}' {
        Some('\u{FF74}')
    } else if c == '\u{30AA}' {
        Some('\u{FF75}')
    } else if c == '\u{30AB}' {
        Some('\u{FF76}')
    } else if c == '\u{30AD}' {
        Some('\u{FF77}')
    } else if c == '\u{30AF}' {
        Some('\u{FF78}')
    } else if c == '\u{30B1}' {
        Some('\u{FF79}')
    } else if c == '\u{30B3}' {
        Some('\u{FF7A}')
    } else if c == '\u{30B5}' {
        Some('\u{FF7B}')
    } else if c == '\u{30B7}' {
        Some('\u{FF7C}')
    } else if c == '\u{30B9}' {
        Some('\u{FF7D}')
    } else if c == '\u{30BB}' {
        Some('\u{FF7E}')
    } else if c == '\u{30BD}' {
        Some('\u{FF7F}')
    } else if c == '\u{30BF}' {
        Some('\u{FF80}')
    } else if c == '\u{30C1}' {
        Some('\u{FF81}')
    } else if c == '\u{30C4}' {
        Some('\u{FF82}')
    } else if c == '\u{30C6}' {
        Some('\u{FF83}')
    } else if c == '\u{30C8}' {
        Some('\u{FF84}')
    } else if c == '\u{30CA}' {
        Some('\u{FF85}')
    } else if c == '\u{30CB}' {
        Some('\u{FF86}')
    } else if c == '\u{30CC}' {
        Some('\u{FF87}')
    } else if c == '\u{30CD}' {
        Some('\u{FF88}')
    } else if c == '\u{30CE}' {
        Some('\u{FF89}')
    } else if c == '\u{30CF}' {
        Some('\u{FF8A}')
    } else if c == '\u{30D2}' {
        Some('\u{FF8B}')
    } else if c == '\u{30D5}' {
        Some('\u{FF8C}')
    } else if c == '\u{30D8}' {
        Some('\u{FF8D}')
    } else if c == '\u{30DB}' {
        Some('\u{FF8E}')
    } else if c == '\u{30DE}' {
        Some('\u{FF8F}')
    } else if c == '\u{30DF}' {
        Some('\u{FF90}')
    } else if c == '\u{30E0}' {
        Some('\u{FF91}')
    } else if c == '\u{30E1}' {
        Some('\u{FF92}')
    } else if c == '\u{30E2}' {
        Some('\u{FF93}')
    } else if c == '\u{30E4}' {
        Some('\u{FF94}')
    } else if c == '\u{30E6}' {
        Some('\u{FF95}')
    } else if c == '\u{30E8}' {
        Some('\u{FF96}')
    } else if c == '\u{30E9}' {
        Some('\u{FF97}')
    } else if c == '\u{30EA}' {
        Some('\u{FF98}')
    } else if c == '\u{30EB}' {
        Some('\u{FF99}')
    } else if c == '\u{30EC}' {
        Some('\u{FF9A}')
    } else if c == '\u{30ED}' {
        Some('\u{FF9B}')
    } else if c == '\u{30EF}' {
        Some('\u{FF9C}')
    } else if c == '\u{30F2}' {
        Some('\u{FF66}')
    } else if c == '\u{30F3}' {
        Some('\u{FF9D}')
    } else if c == '\u{30A1}' {
        Some('\u{FF67}')
    } else if c == '\u{30A3}' {
        Some('\u{FF68}')
    } else if c == '\u{30A5}' {
        Some('\u{FF69}')
    } else if c == '\u{30A7}' {
        Some('\u{FF6A}')
    } else if c == '\u{30A9}' {
        Some('\u{FF6B}')
    } else if c == '\u{30C3}' {
        Some('\u{FF6F}')
    } else if c == '\u{30E3}' {
        Some('\u{FF6C}')
    } else if c == '\u{30E5}' {
        Some('\u{FF6D}')
    } else if c == '\u{30E7}' {
        Some('\u{FF6E}')
    } else if c == '\u{3002}' {
        Some('\u{FF61}')
    } else if c == '\u{3001}' {
        Some('\u{FF64}')
    } else if c == '\u{30FB}' {
        Some('\u{FF65}')
    } else if c == '\u{309B}' {
        Some('\u{FF9E}')
    } else if c == '\u{309C}' {
        Some('\u{FF9F}')
    } else if c == '\u{300C}' {
        Some('\u{FF62}')
    } else if c == '\u{300D}' {
        Some('\u{FF63}')
    } else if c == '\u{30FC}' {
        Some('\u{FF70}')
    } else {
        None
    }
}

/// Half-width katakana and kana punctuation to their full-width forms.
pub open spec fn spec_kana_hz(c: char) -> Option<char> {
    if c == '\u{FF71}' {
        Some('\u{30A2}')
    } else if c == '\u{FF72}' {
        Some('\u{30A4}')
    } else if c == '\u{FF73}' {
        Some('\u{30A6}')
    } else if c == '\u{FF74}' {
        Some('\u{30A8}')
    } else if c == '\u{FF75}' {
        Some('\u{30AA}')
    } else if c == '\u{FF76}' {
        Some('\u{30AB}')
    } else if c == '\u{FF77}' {
        Some('\u{30AD}')
    } else if c == '\u{FF78}' {
        Some('\u{30AF}')
    } else if c == '\u{FF79}' {
        Some('\u{30B1}')
    } else if c == '\u{FF7A}' {
        Some('\u{30B3}')
    } else if c == '\u{FF7B}' {
        Some('\u{30B5}')
    } else if c == '\u{FF7C}' {
        Some('\u{30B7}')
    } else if c == '\u{FF7D}' {
        Some('\u{30B9}')
    } else if c == '\u{FF7E}' {
        Some('\u{30BB}')
    } else if c == '\u{FF7F}' {
        Some('\u{30BD}')
    } else if c == '\u{FF80}' {
        Some('\u{30BF}')
    } else if c == '\u{FF81}' {
        Some('\u{30C1}')
    } else if c == '\u{FF82}' {
        Some('\u{30C4}')
    } else if c == '\u{FF83}' {
        Some('\u{30C6}')
    } else if c == '\u{FF84}' {
        Some('\u{30C8}')
    } else if c == '\u{FF85}' {
        Some('\u{30CA}')
    } else if c == '\u{FF86}' {
        Some('\u{30CB}')
    } else if c == '\u{FF87}' {
        Some('\u{30CC}')
    } else if c == '\u{FF88}' {
        Some('\u{30CD}')
    } else if c == '\u{FF89}' {
        Some('\u{30CE}')
    } else if c == '\u{FF8A}' {
        Some('\u{30CF}')
    } else if c == '\u{FF8B}' {
        Some('\u{30D2}')
    } else if c == '\u{FF8C}' {
        Some('\u{30D5}')
    } else if c == '\u{FF8D}' {
        Some('\u{30D8}')
    } else if c == '\u{FF8E}' {
        Some('\u{30DB}')
    } else if c == '\u{FF8F}' {
        Some('\u{30DE}')
    } else if c == '\u{FF90}' {
        Some('\u{30DF}')
    } else if c == '\u{FF91}' {
        Some('\u{30E0}')
    } else if c == '\u{FF92}' {
        Some('\u{30E1}')
    } else if c == '\u{FF93}' {
        Some('\u{30E2}')
    } else if c == '\u{FF94}' {
        Some('\u{30E4}')
    } else if c == '\u{FF95}' {
        Some('\u{30E6}')
    } else if c == '\u{FF96}' {
        Some('\u{30E8}')
    } else if c == '\u{FF97}' {
        Some('\u{30E9}')
    } else if c == '\u{FF98}' {
        Some('\u{30EA}')
    } else if c == '\u{FF99}' {
        Some('\u{30EB}')
    } else if c == '\u{FF9A}' {
        Some('\u{30EC}')
    } else if c == '\u{FF9B}' {
        Some('\u{30ED}')
    } else if c == '\u{FF9C}' {
        Some('\u{30EF}')
    } else if c == '\u{FF66}' {
        Some('\u{30F2}')
    } else if c == '\u{FF9D}' {
        Some('\u{30F3}')
    } else if c == '\u{FF67}' {
        Some('\u{30A1}')
    } else if c == '\u{FF68}' {
        Some('\u{30A3}')
    } else if c == '\u{FF69}' {
        Some('\u{30A5}')
    } else if c == '\u{FF6A}' {
        Some('\u{30A7}')
    } else if c == '\u{FF6B}' {
        Some('\u{30A9}')
    } else if c == '\u{FF6F}' {
        Some('\u{30C3}')
    } else if c == '\u{FF6C}' {
        Some('\u{30E3}')
    } else if c == '\u{FF6D}' {
        Some('\u{30E5}')
    } else if c == '\u{FF6E}' {
        Some('\u{30E7}')
    } else if c == '\u{FF61}' {
        Some('\u{3002}')
    } else if c == '\u{FF64}' {
        Some('\u{3001}')
    } else if c == '\u{FF65}' {
        Some('\u{30FB}')
    } else if c == '\u{FF9E}' {
        Some('\u{309B}')
    } else if c == '\u{FF9F}' {
        Some('\u{309C}')
    } else if c == '\u{FF62}' {
        Some('\u{300C}')
    } else if c == '\u{FF63}' {
        Some('\u{300D}')
    } else if c == '\u{FF70}' {
        Some('\u{30FC}')
    } else {
        None
    }
}

/// Composed voiced (dakuten) full-width kana to the half-width base kana.
pub open spec fn spec_kana_ten_zh(c: char) -> Option<char> {
    if c == '\u{30AC}' {
        Some('\u{FF76}')
    } else if c == '\u{30AE}' {
        Some('\u{FF77}')
    } else if c == '\u{30B0}' {
        Some('\u{FF78}')
    } else if c == '\u{30B2}' {
        Some('\u{FF79}')
    } else if c == '\u{30B4}' {
        Some('\u{FF7A}')
    } else if c == '\u{30B6}' {
        Some('\u{FF7B}')
    } else if c == '\u{30B8}' {
        Some('\u{FF7C}')
    } else if c == '\u{30BA}' {
        Some('\u{FF7D}')
    } else if c == '\u{30BC}' {
        Some('\u{FF7E}')
    } else if c == '\u{30BE}' {
        Some('\u{FF7F}')
    } else if c == '\u{30C0}' {
        Some('\u{FF80}')
    } else if c == '\u{30C2}' {
        Some('\u{FF81}')
    } else if c == '\u{30C5}' {
        Some('\u{FF82}')
    } else if c == '\u{30C7}' {
        Some('\u{FF83}')
    } else if c == '\u{30C9}' {
        Some('\u{FF84}')
    } else if c == '\u{30D0}' {
        Some('\u{FF8A}')
    } else if c == '\u{30D3}' {
        Some('\u{FF8B}')
    } else if c == '\u{30D6}' {
        Some('\u{FF8C}')
    } else if c == '\u{30D9}' {
        Some('\u{FF8D}')
    } else if c == '\u{30DC}' {
        Some('\u{FF8E}')
    } else if c == '\u{30F4}' {
        Some('\u{FF73}')
    } else {
        None
    }
}

/// Half-width base kana to the composed voiced (dakuten) full-width kana.
pub open spec fn spec_kana_ten_hz(c: char) -> Option<char> {
    if c == '\u{FF76}' {
        Some('\u{30AC}')
    } else if c == '\u{FF77}' {
        Some('\u{30AE}')
    } else if c == '\u{FF78}' {
        Some('\u{30B0}')
    } else if c == '\u{FF79}' {
        Some('\u{30B2}')
    } else if c == '\u{FF7A}' {
        Some('\u{30B4}')
    } else if c == '\u{FF7B}' {
        Some('\u{30B6}')
    } else if c == '\u{FF7C}' {
        Some('\u{30B8}')
    } else if c == '\u{FF7D}' {
        Some('\u{30BA}')
    } else if c == '\u{FF7E}' {
        Some('\u{30BC}')
    } else if c == '\u{FF7F}' {
        Some('\u{30BE}')
    } else if c == '\u{FF80}' {
        Some('\u{30C0}')
    } else if c == '\u{FF81}' {
        Some('\u{30C2}')
    } else if c == '\u{FF82}' {
        Some('\u{30C5}')
    } else if c == '\u{FF83}' {
        Some('\u{30C7}')
    } else if c == '\u{FF84}' {
        Some('\u{30C9}')
    } else if c == '\u{FF8A}' {
        Some('\u{30D0}')
    } else if c == '\u{FF8B}' {
        Some('\u{30D3}')
    } else if c == '\u{FF8C}' {
        Some('\u{30D6}')
    } else if c == '\u{FF8D}' {
        Some('\u{30D9}')
    } else if c == '\u{FF8E}' {
        Some('\u{30DC}')
    } else if c == '\u{FF73}' {
        Some('\u{30F4}')
    } else {
        None
    }
}

/// Composed semi-voiced (handakuten) full-width kana to the half-width base kana.
pub open spec fn spec_kana_maru_zh(c: char) -> Option<char> {
    if c == '\u{30D1}' {
        Some('\u{FF8A}')
    } else if c == '\u{30D4}' {
        Some('\u{FF8B}')
    } else if c == '\u{30D7}' {
        Some('\u{FF8C}')
    } else if c == '\u{30DA}' {
        Some('\u{FF8D}')
    } else if c == '\u{30DD}' {
        Some('\u{FF8E}')
    } else {
        None
    }
}

/// Half-width base kana to the composed semi-voiced (handakuten) full-width kana.
pub open spec fn spec_kana_maru_hz(c: char) -> Option<char> {
    if c == '\u{FF8A}' {
        Some('\u{30D1}')
    } else if c == '\u{FF8B}' {
        Some('\u{30D4}')
    } else if c == '\u{FF8C}' {
        Some('\u{30D7}')
    } else if c == '\u{FF8D}' {
        Some('\u{30DA}')
    } else if c == '\u{FF8E}' {
        Some('\u{30DD}')
    } else {
        None
    }
}

/// Full-width ASCII letters, punctuation and space to their half-width forms.
pub fn ascii_zh(c: char) -> (r: Option<char>)
    ensures
        r == spec_ascii_zh(c),
{
    if c == '\u{FF41}' {
        Some('a')
    } else if c == '\u{FF42}' {
        Some('b')
    } else if c == '\u{FF43}' {
        Some('c')
    } else if c == '\u{FF44}' {
        Some('d')
    } else if c == '\u{FF45}' {
        Some('e')
    } else if c == '\u{FF46}' {
        Some('f')
    } else if c == '\u{FF47}' {
        Some('g')
    } else if c == '\u{FF48}' {
        Some('h')
    } else if c == '\u{FF49}' {
        Some('i')
    } else if c == '\u{FF4A}' {
        Some('j')
    } else if c == '\u{FF4B}' {
        Some('k')
    } else if c == '\u{FF4C}' {
        Some('l')
    } else if c == '\u{FF4D}' {
        Some('m')
    } else if c == '\u{FF4E}' {
        Some('n')
    } else if c == '\u{FF4F}' {
        Some('o')
    } else if c == '\u{FF50}' {
        Some('p')
    } else if c == '\u{FF51}' {
        Some('q')
    } else if c == '\u{FF52}' {
        Some('r')
    } else if c == '\u{FF53}' {
        Some('s')
    } else if c == '\u{FF54}' {
        Some('t')
    } else if c == '\u{FF55}' {
        Some('u')
    } else if c == '\u{FF56}' {
        Some('v')
    } else if c == '\u{FF57}' {
        Some('w')
    } else if c == '\u{FF58}' {
        Some('x')
    } else if c == '\u{FF59}' {
        Some('y')
    } else if c == '\u{FF5A}' {
        Some('z')
    } else if c == '\u{FF21}' {
        Some('A')
    } else if c == '\u{FF22}' {
        Some('B')
    } else if c == '\u{FF23}' {
        Some('C')
    } else if c == '\u{FF24}' {
        Some('D')
    } else if c == '\u{FF25}' {
        Some('E')
    } else if c == '\u{FF26}' {
        Some('F')
    } else if c == '\u{FF27}' {
        Some('G')
    } else if c == '\u{FF28}' {
        Some('H')
    } else if c == '\u{FF29}' {
        Some('I')
    } else if c == '\u{FF2A}' {
        Some('J')
    } else if c == '\u{FF2B}' {
        Some('K')
    } else if c == '\u{FF2C}' {
        Some('L')
    } else if c == '\u{FF2D}' {
        Some('M')
    } else if c == '\u{FF2E}' {
        Some('N')
    } else if c == '\u{FF2F}' {
        Some('O')
    } else if c == '\u{FF30}' {
        Some('P')
    } else if c == '\u{FF31}' {
        Some('Q')
    } else if c == '\u{FF32}' {
        Some('R')
    } else if c == '\u{FF33}' {
        Some('S')
    } else if c == '\u{FF34}' {
        Some('T')
    } else if c == '\u{FF35}' {
        Some('U')
    } else if c == '\u{FF36}' {
        Some('V')
    } else if c == '\u{FF37}' {
        Some('W')
    } else if c == '\u{FF38}' {
        Some('X')
    } else if c == '\u{FF39}' {
        Some('Y')
    } else if c == '\u{FF3A}' {
        Some('Z')
    } else if c == '\u{FF01}' {
        Some('!')
    } else if c == '\u{FF02}' {
        Some('"')
    } else if c == '\u{FF03}' {
        Some('#')
    } else if c == '\u{FF04}' {
        Some('$')
    } else if c == '\u{FF05}' {
        Some('%')
    } else if c == '\u{FF06}' {
        Some('&')
    } else if c == '\u{FF07}' {
        Some('\'')
    } else if c == '\u{FF08}' {
        Some('(')
    } else if c == '\u{FF09}' {
        Some(')')
    } else if c == '\u{FF0A}' {
        Some('*')
    } else if c == '\u{FF0B}' {
        Some('+')
    } else if c == '\u{FF0C}' {
        Some(',')
    } else if c == '\u{FF0D}' {
        Some('-')
    } else if c == '\u{FF0E}' {
        Some('.')
    } else if c == '\u{FF0F}' {
        Some('/')
    } else if c == '\u{FF1A}' {
        Some(':')
    } else if c == '\u{FF1B}' {
        Some(';')
    } else if c == '\u{FF1C}' {
        Some('<')
    } else if c == '\u{FF1D}' {
        Some('=')
    } else if c == '\u{FF1E}' {
        Some('>')
    } else if c == '\u{FF1F}' {
        Some('?')
    } else if c == '\u{FF20}' {
        Some('@')
    } else if c == '\u{FF3B}' {
        Some('[')
    } else if c == '\u{FFE5}' {
        Some('\\')
    } else if c == '\u{FF3D}' {
        Some(']')
    } else if c == '\u{FF3E}' {
        Some('^')
    } else if c == '\u{FF3F}' {
        Some('_')
    } else if c == '\u{FF40}' {
        Some('`')
    } else if c == '\u{FF5B}' {
        Some('{')
    } else if c == '\u{FF5C}' {
        Some('|')
    } else if c == '\u{FF5D}' {
        Some('}')
    } else if c == '\u{FF5E}' {
        Some('~')
    } else if c == '\u{3000}' {
        Some(' ')
    } else if c == '\u{FF3C}' {
        Some('\\')
    } else {
        None
    }
}

/// Half-width ASCII letters, punctuation and space to their full-width forms.
pub fn ascii_hz(c: char) -> (r: Option<char>)
    ensures
        r == spec_ascii_hz(c),
{
    if c == 'a' {
        Some('\u{FF41}')
    } else if c == 'b' {
        Some('\u{FF42}')
    } else if c == 'c' {
        Some('\u{FF43}')
    } else if c == 'd' {
        Some('\u{FF44}')
    } else if c == 'e' {
        Some('\u{FF45}')
    } else if c == 'f' {
        Some('\u{FF46}')
    } else if c == 'g' {
        Some('\u{FF47}')
    } else if c == 'h' {
        Some('\u{FF48}')
    } else if c == 'i' {
        Some('\u{FF49}')
    } else if c == 'j' {
        Some('\u{FF4A}')
    } else if c == 'k' {
        Some('\u{FF4B}')
    } else if c == 'l' {
        Some('\u{FF4C}')
    } else if c == 'm' {
        Some('\u{FF4D}')
    } else if c == 'n' {
        Some('\u{FF4E}')
    } else if c == 'o' {
        Some('\u{FF4F}')
    } else if c == 'p' {
        Some('\u{FF50}')
    } else if c == 'q' {
        Some('\u{FF51}')
    } else if c == 'r' {
        Some('\u{FF52}')
    } else if c == 's' {
        Some('\u{FF53}')
    } else if c == 't' {
        Some('\u{FF54}')
    } else if c == 'u' {
        Some('\u{FF55}')
    } else if c == 'v' {
        Some('\u{FF56}')
    } else if c == 'w' {
        Some('\u{FF57}')
    } else if c == 'x' {
        Some('\u{FF58}')
    } else if c == 'y' {
        Some('\u{FF59}')
    } else if c == 'z' {
        Some('\u{FF5A}')
    } else if c == 'A' {
        Some('\u{FF21}')
    } else if c == 'B' {
        Some('\u{FF22}')
    } else if c == 'C' {
        Some('\u{FF23}')
    } else if c == 'D' {
        Some('\u{FF24}')
    } else if c == 'E' {
        Some('\u{FF25}')
    } else if c == 'F' {
        Some('\u{FF26}')
    } else if c == 'G' {
        Some('\u{FF27}')
    } else if c == 'H' {
        Some('\u{FF28}')
    } else if c == 'I' {
        Some('\u{FF29}')
    } else if c == 'J' {
        Some('\u{FF2A}')
    } else if c == 'K' {
        Some('\u{FF2B}')
    } else if c == 'L' {
        Some('\u{FF2C}')
    } else if c == 'M' {
        Some('\u{FF2D}')
    } else if c == 'N' {
        Some('\u{FF2E}')
    } else if c == 'O' {
        Some('\u{FF2F}')
    } else if c == 'P' {
        Some('\u{FF30}')
    } else if c == 'Q' {
        Some('\u{FF31}')
    } else if c == 'R' {
        Some('\u{FF32}')
    } else if c == 'S' {
        Some('\u{FF33}')
    } else if c == 'T' {
        Some('\u{FF34}')
    } else if c == 'U' {
        Some('\u{FF35}')
    } else if c == 'V' {
        Some('\u{FF36}')
    } else if c == 'W' {
        Some('\u{FF37}')
    } else if c == 'X' {
        Some('\u{FF38}')
    } else if c == 'Y' {
        Some('\u{FF39}')
    } else if c == 'Z' {
        Some('\u{FF3A}')
    } else if c == '!' {
        Some('\u{FF01}')
    } else if c == '"' {
        Some('\u{FF02}')
    } else if c == '#' {
        Some('\u{FF03}')
    } else if c == '$' {
        Some('\u{FF04}')
    } else if c == '%' {
        Some('\u{FF05}')
    } else if c == '&' {
        Some('\u{FF06}')
    } else if c == '\'' {
        Some('\u{FF07}')
    } else if c == '(' {
        Some('\u{FF08}')
    } else if c == ')' {
        Some('\u{FF09}')
    } else if c == '*' {
        Some('\u{FF0A}')
    } else if c == '+' {
        Some('\u{FF0B}')
    } else if c == ',' {
        Some('\u{FF0C}')
    } else if c == '-' {
        Some('\u{FF0D}')
    } else if c == '.' {
        Some('\u{FF0E}')
    } else if c == '/' {
        Some('\u{FF0F}')
    } else if c == ':' {
        Some('\u{FF1A}')
    } else if c == ';' {
        Some('\u{FF1B}')
    } else if c == '<' {
        Some('\u{FF1C}')
    } else if c == '=' {
        Some('\u{FF1D}')
    } else if c == '>' {
        Some('\u{FF1E}')
    } else if c == '?' {
        Some('\u{FF1F}')
    } else if c == '@' {
        Some('\u{FF20}')
    } else if c == '[' {
        Some('\u{FF3B}')
    } else if c == '\\' {
        Some('\u{FF3C}')
    } else if c == ']' {
        Some('\u{FF3D}')
    } else if c == '^' {
        Some('\u{FF3E}')
    } else if c == '_' {
        Some('\u{FF3F}')
    } else if c == '`' {
        Some('\u{FF40}')
    } else if c == '{' {
        Some('\u{FF5B}')
    } else if c == '|' {
        Some('\u{FF5C}')
    } else if c == '}' {
        Some('\u{FF5D}')
    } else if c == '~' {
        Some('\u{FF5E}')
    } else if c == ' ' {
        Some('\u{3000}')
    } else {
        None
    }
}

/// Full-width digits to half-width digits.
pub fn digit_zh(c: char) -> (r: Option<char>)
    ensures
        r == spec_digit_zh(c),
{
    if c == '\u{FF10}' {
        Some('0')
    } else if c == '\u{FF11}' {
        Some('1')
    } else if c == '\u{FF12}' {
        Some('2')
    } else if c == '\u{FF13}' {
        Some('3')
    } else if c == '\u{FF14}' {
        Some('4')
    } else if c == '\u{FF15}' {
        Some('5')
    } else if c == '\u{FF16}' {
        Some('6')
    } else if c == '\u{FF17}' {
        Some('7')
    } else if c == '\u{FF18}' {
        Some('8')
    } else if c == '\u{FF19}' {
        Some('9')
    } else {
        None
    }
}

/// Half-width digits to full-width digits.
pub fn digit_hz(c: char) -> (r: Option<char>)
    ensures
        r == spec_digit_hz(c),
{
    if c == '0' {
        Some('\u{FF10}')
    } else if c == '1' {
        Some('\u{FF11}')
    } else if c == '2' {
        Some('\u{FF12}')
    } else if c == '3' {
        Some('\u{FF13}')
    } else if c == '4' {
        Some('\u{FF14}')
    } else if c == '5' {
        Some('\u{FF15}')
    } else if c == '6' {
        Some('\u{FF16}')
    } else if c == '7' {
        Some('\u{FF17}')
    } else if c == '8' {
        Some('\u{FF18}')
    } else if c == '9' {
        Some('\u{FF19}')
    } else {
        None
    }
}

/// Full-width plain katakana and kana punctuation to their half-width forms.
pub fn kana_zh(c: char) -> (r: Option<char>)
    ensures
        r == spec_kana_zh(c),
{
    if c == '\u{30A2}' {
        Some('\u{FF71}')
    } else if c == '\u{30A4}' {
        Some('\u{FF72}')
    } else if c == '\u{30A6}' {
        Some('\u{FF73}')
    } else if c == '\u{30A8}' {
        Some('\u{FF74}')
    } else if c == '\u{30AA}' {
        Some('\u{FF75}')
    } else if c == '\u{30AB}' {
        Some('\u{FF76}')
    } else if c == '\u{30AD}' {
        Some('\u{FF77}')
    } else if c == '\u{30AF}' {
        Some('\u{FF78}')
    } else if c == '\u{30B1}' {
        Some('\u{FF79}')
    } else if c == '\u{30B3}' {
        Some('\u{FF7A}')
    } else if c == '\u{30B5}' {
        Some('\u{FF7B}')
    } else if c == '\u{30B7}' {
        Some('\u{FF7C}')
    } else if c == '\u{30B9}' {
        Some('\u{FF7D}')
    } else if c == '\u{30BB}' {
        Some('\u{FF7E}')
    } else if c == '\u{30BD}' {
        Some('\u{FF7F}')
    } else if c == '\u{30BF}' {
        Some('\u{FF80}')
    } else if c == '\u{30C1}' {
        Some('\u{FF81}')
    } else if c == '\u{30C4}' {
        Some('\u{FF82}')
    } else if c == '\u{30C6}' {
        Some('\u{FF83}')
    } else if c == '\u{30C8}' {
        Some('\u{FF84}')
    } else if c == '\u{30CA}' {
        Some('\u{FF85}')
    } else if c == '\u{30CB}' {
        Some('\u{FF86}')
    } else if c == '\u{30CC}' {
        Some('\u{FF87}')
    } else if c == '\u{30CD}' {
        Some('\u{FF88}')
    } else if c == '\u{30CE}' {
        Some('\u{FF89}')
    } else if c == '\u{30CF}' {
        Some('\u{FF8A}')
    } else if c == '\u{30D2}' {
        Some('\u{FF8B}')
    } else if c == '\u{30D5}' {
        Some('\u{FF8C}')
    } else if c == '\u{30D8}' {
        Some('\u{FF8D}')
    } else if c == '\u{30DB}' {
        Some('\u{FF8E}')
    } else if c == '\u{30DE}' {
        Some('\u{FF8F}')
    } else if c == '\u{30DF}' {
        Some('\u{FF90}')
    } else if c == '\u{30E0}' {
        Some('\u{FF91}')
    } else if c == '\u{30E1}' {
        Some('\u{FF92}')
    } else if c == '\u{30E2}' {
        Some('\u{FF93}')
    } else if c == '\u{30E4}' {
        Some('\u{FF94}')
    } else if c == '\u{30E6}' {
        Some('\u{FF95}')
    } else if c == '\u{30E8}' {
        Some('\u{FF96}')
    } else if c == '\u{30E9}' {
        Some('\u{FF97}')
    } else if c == '\u{30EA}' {
        Some('\u{FF98}')
    } else if c == '\u{30EB}' {
        Some('\u{FF99}')
    } else if c == '\u{30EC}' {
        Some('\u{FF9A}')
    } else if c == '\u{30ED}' {
        Some('\u{FF9B}')
    } else if c == '\u{30EF}' {
        Some('\u{FF9C}')
    } else if c == '\u{30F2}' {
        Some('\u{FF66}')
    } else if c == '\u{30F3}' {
        Some('\u{FF9D}')
    } else if c == '\u{30A1}' {
        Some('\u{FF67}')
    } else if c == '\u{30A3}' {
        Some('\u{FF68}')
    } else if c == '\u{30A5}' {
        Some('\u{FF69}')
    } else if c == '\u{30A7}' {
        Some('\u{FF6A}')
    } else if c == '\u{30A9}' {
        Some('\u{FF6B}')
    } else if c == '\u{30C3}' {
        Some('\u{FF6F}')
    } else if c == '\u{30E3}' {
        Some('\u{FF6C}')
    } else if c == '\u{30E5}' {
        Some('\u{FF6D}')
    } else if c == '\u{30E7}' {
        Some('\u{FF6E}')
    } else if c == '\u{3002}' {
        Some('\u{FF61}')
    } else if c == '\u{3001}' {
        Some('\u{FF64}')
    } else if c == '\u{30FB}' {
        Some('\u{FF65}')
    } else if c == '\u{309B}' {
        Some('\u{FF9E}')
    } else if c == '\u{309C}' {
        Some('\u{FF9F}')
    } else if c == '\u{300C}' {
        Some('\u{FF62}')
    } else if c == '\u{300D}' {
        Some('\u{FF63}')
    } else if c == '\u{30FC}' {
        Some('\u{FF70}')
    } else {
        None
    }
}

/// Half-width katakana and kana punctuation to their full-width forms.
pub fn kana_hz(c: char) -> (r: Option<char>)
    ensures
        r == spec_kana_hz(c),
{
    if c == '\u{FF71}' {
        Some('\u{30A2}')
    } else if c == '\u{FF72}' {
        Some('\u{30A4}')
    } else if c == '\u{FF73}' {
        Some('\u{30A6}')
    } else if c == '\u{FF74}' {
        Some('\u{30A8}')
    } else if c == '\u{FF75}' {
        Some('\u{30AA}')
    } else if c == '\u{FF76}' {
        Some('\u{30AB}')
    } else if c == '\u{FF77}' {
        Some('\u{30AD}')
    } else if c == '\u{FF78}' {
        Some('\u{30AF}')
    } else if c == '\u{FF79}' {
        Some('\u{30B1}')
    } else if c == '\u{FF7A}' {
        Some('\u{30B3}')
    } else if c == '\u{FF7B}' {
        Some('\u{30B5}')
    } else if c == '\u{FF7C}' {
        Some('\u{30B7}')
    } else if c == '\u{FF7D}' {
        Some('\u{30B9}')
    } else if c == '\u{FF7E}' {
        Some('\u{30BB}')
    } else if c == '\u{FF7F}' {
        Some('\u{30BD}')
    } else if c == '\u{FF80}' {
        Some('\u{30BF}')
    } else if c == '\u{FF81}' {
        Some('\u{30C1}')
    } else if c == '\u{FF82}' {
        Some('\u{30C4}')
    } else if c == '\u{FF83}' {
        Some('\u{30C6}')
    } else if c == '\u{FF84}' {
        Some('\u{30C8}')
    } else if c == '\u{FF85}' {
        Some('\u{30CA}')
    } else if c == '\u{FF86}' {
        Some('\u{30CB}')
    } else if c == '\u{FF87}' {
        Some('\u{30CC}')
    } else if c == '\u{FF88}' {
        Some('\u{30CD}')
    } else if c == '\u{FF89}' {
        Some('\u{30CE}')
    } else if c == '\u{FF8A}' {
        Some('\u{30CF}')
    } else if c == '\u{FF8B}' {
        Some('\u{30D2}')
    } else if c == '\u{FF8C}' {
        Some('\u{30D5}')
    } else if c == '\u{FF8D}' {
        Some('\u{30D8}')
    } else if c == '\u{FF8E}' {
        Some('\u{30DB}')
    } else if c == '\u{FF8F}' {
        Some('\u{30DE}')
    } else if c == '\u{FF90}' {
        Some('\u{30DF}')
    } else if c == '\u{FF91}' {
        Some('\u{30E0}')
    } else if c == '\u{FF92}' {
        Some('\u{30E1}')
    } else if c == '\u{FF93}' {
        Some('\u{30E2}')
    } else if c == '\u{FF94}' {
        Some('\u{30E4}')
    } else if c == '\u{FF95}' {
        Some('\u{30E6}')
    } else if c == '\u{FF96}' {
        Some('\u{30E8}')
    } else if c == '\u{FF97}' {
        Some('\u{30E9}')
    } else if c == '\u{FF98}' {
        Some('\u{30EA}')
    } else if c == '\u{FF99}' {
        Some('\u{30EB}')
    } else if c == '\u{FF9A}' {
        Some('\u{30EC}')
    } else if c == '\u{FF9B}' {
        Some('\u{30ED}')
    } else if c == '\u{FF9C}' {
        Some('\u{30EF}')
    } else if c == '\u{FF66}' {
        Some('\u{30F2}')
    } else if c == '\u{FF9D}' {
        Some('\u{30F3}')
    } else if c == '\u{FF67}' {
        Some('\u{30A1}')
    } else if c == '\u{FF68}' {
        Some('\u{30A3}')
    } else if c == '\u{FF69}' {
        Some('\u{30A5}')
    } else if c == '\u{FF6A}' {
        Some('\u{30A7}')
    } else if c == '\u{FF6B}' {
        Some('\u{30A9}')
    } else if c == '\u{FF6F}' {
        Some('\u{30C3}')
    } else if c == '\u{FF6C}' {
        Some('\u{30E3}')
    } else if c == '\u{FF6D}' {
        Some('\u{30E5}')
    } else if c == '\u{FF6E}' {
        Some('\u{30E7}')
    } else if c == '\u{FF61}' {
        Some('\u{3002}')
    } else if c == '\u{FF64}' {
        Some('\u{3001}')
    } else if c == '\u{FF65}' {
        Some('\u{30FB}')
    } else if c == '\u{FF9E}' {
        Some('\u{309B}')
    } else if c == '\u{FF9F}' {
        Some('\u{309C}')
    } else if c == '\u{FF62}' {
        Some('\u{300C}')
    } else if c == '\u{FF63}' {
        Some('\u{300D}')
    } else if c == '\u{FF70}' {
        Some('\u{30FC}')
    } else {
        None
    }
}

/// Composed voiced (dakuten) full-width kana to the half-width base kana.
pub fn kana_ten_zh(c: char) -> (r: Option<char>)
    ensures
        r == spec_kana_ten_zh(c),
{
    if c == '\u{30AC}' {
        Some('\u{FF76}')
    } else if c == '\u{30AE}' {
        Some('\u{FF77}')
    } else if c == '\u{30B0}' {
        Some('\u{FF78}')
    } else if c == '\u{30B2}' {
        Some('\u{FF79}')
    } else if c == '\u{30B4}' {
        Some('\u{FF7A}')
    } else if c == '\u{30B6}' {
        Some('\u{FF7B}')
    } else if c == '\u{30B8}' {
        Some('\u{FF7C}')
    } else if c == '\u{30BA}' {
        Some('\u{FF7D}')
    } else if c == '\u{30BC}' {
        Some('\u{FF7E}')
    } else if c == '\u{30BE}' {
        Some('\u{FF7F}')
    } else if c == '\u{30C0}' {
        Some('\u{FF80}')
    } else if c == '\u{30C2}' {
        Some('\u{FF81}')
    } else if c == '\u{30C5}' {
        Some('\u{FF82}')
    } else if c == '\u{30C7}' {
        Some('\u{FF83}')
    } else if c == '\u{30C9}' {
        Some('\u{FF84}')
    } else if c == '\u{30D0}' {
        Some('\u{FF8A}')
    } else if c == '\u{30D3}' {
        Some('\u{FF8B}')
    } else if c == '\u{30D6}' {
        Some('\u{FF8C}')
    } else if c == '\u{30D9}' {
        Some('\u{FF8D}')
    } else if c == '\u{30DC}' {
        Some('\u{FF8E}')
    } else if c == '\u{30F4}' {
        Some('\u{FF73}')
    } else {
        None
    }
}

/// Half-width base kana to the composed voiced (dakuten) full-width kana.
pub fn kana_ten_hz(c: char) -> (r: Option<char>)
    ensures
        r == spec_kana_ten_hz(c),
{
    if c == '\u{FF76}' {
        Some('\u{30AC}')
    } else if c == '\u{FF77}' {
        Some('\u{30AE}')
    } else if c == '\u{FF78}' {
        Some('\u{30B0}')
    } else if c == '\u{FF79}' {
        Some('\u{30B2}')
    } else if c == '\u{FF7A}' {
        Some('\u{30B4}')
    } else if c == '\u{FF7B}' {
        Some('\u{30B6}')
    } else if c == '\u{FF7C}' {
        Some('\u{30B8}')
    } else if c == '\u{FF7D}' {
        Some('\u{30BA}')
    } else if c == '\u{FF7E}' {
        Some('\u{30BC}')
    } else if c == '\u{FF7F}' {
        Some('\u{30BE}')
    } else if c == '\u{FF80}' {
        Some('\u{30C0}')
    } else if c == '\u{FF81}' {
        Some('\u{30C2}')
    } else if c == '\u{FF82}' {
        Some('\u{30C5}')
    } else if c == '\u{FF83}' {
        Some('\u{30C7}')
    } else if c == '\u{FF84}' {
        Some('\u{30C9}')
    } else if c == '\u{FF8A}' {
        Some('\u{30D0}')
    } else if c == '\u{FF8B}' {
        Some('\u{30D3}')
    } else if c == '\u{FF8C}' {
        Some('\u{30D6}')
    } else if c == '\u{FF8D}' {
        Some('\u{30D9}')
    } else if c == '\u{FF8E}' {
        Some('\u{30DC}')
    } else if c == '\u{FF73}' {
        Some('\u{30F4}')
    } else {
        None
    }
}

/// Composed semi-voiced (handakuten) full-width kana to the half-width base kana.
pub fn kana_maru_zh(c: char) -> (r: Option<char>)
    ensures
        r == spec_kana_maru_zh(c),
{
    if c == '\u{30D1}' {
        Some('\u{FF8A}')
    } else if c == '\u{30D4}' {
        Some('\u{FF8B}')
    } else if c == '\u{30D7}' {
        Some('\u{FF8C}')
    } else if c == '\u{30DA}' {
        Some('\u{FF8D}')
    } else if c == '\u{30DD}' {
        Some('\u{FF8E}')
    } else {
        None
    }
}

/// Half-width base kana to the composed semi-voiced (handakuten) full-width kana.
pub fn kana_maru_hz(c: char) -> (r: Option<char>)
    ensures
        r == spec_kana_maru_hz(c),
{
    if c == '\u{FF8A}' {
        Some('\u{30D1}')
    } else if c == '\u{FF8B}' {
        Some('\u{30D4}')
    } else if c == '\u{FF8C}' {
        Some('\u{30D7}')
    } else if c == '\u{FF8D}' {
        Some('\u{30DA}')
    } else if c == '\u{FF8E}' {
        Some('\u{30DD}')
    } else {
        None
    }
}

} // verus!
