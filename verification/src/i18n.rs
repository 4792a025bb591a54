//! Built-in UI strings for nine Latin-script languages.
//!
//! Lookups fall back to the key itself when a key is not in the table, so a
//! missing translation never panics.
use vstd::prelude::*;
use crate::text::str_eq;

verus! {

/// A UI language.
#[derive(Debug, Clone, Copy, PartialEq, Eq, Structural)]
pub enum Lang {
    En,
    Tr,
    De,
    Fr,
    Es,
    Pt,
    It,
    Nl,
    Pl,
}

impl Default for Lang {
    /// Existing users keep Turkish.
    fn default() -> (r: Self)
        ensures
            r == Lang::Tr,
    {
        Lang::Tr
    }
}

/// Every language, in picker order.
pub open spec fn all_langs() -> Seq<Lang> {
    seq![Lang::En, Lang::Tr, Lang::De, Lang::Fr, Lang::Es, Lang::Pt, Lang::It, Lang::Nl, Lang::Pl]
}

/// The short code of a language, as stored in the configuration file.
pub open spec fn lang_code(l: Lang) -> &'static str {
    match l {
        Lang::En => "en",
        Lang::Tr => "tr",
        Lang::De => "de",
        Lang::Fr => "fr",
        Lang::Es => "es",
        Lang::Pt => "pt",
        Lang::It => "it",
        Lang::Nl => "nl",
        Lang::Pl => "pl",
    }
}

/// The native name of a language, shown in the language picker.
pub open spec fn lang_label(l: Lang) -> &'static str {
    match l {
        Lang::En => "English",
        Lang::Tr => "Türkçe",
        Lang::De => "Deutsch",
        Lang::Fr => "Français",
        Lang::Es => "Español",
        Lang::Pt => "Português",
        Lang::It => "Italiano",
        Lang::Nl => "Nederlands",
        Lang::Pl => "Polski",
    }
}

/// The first language at position `i` or later of `all_langs()` whose code is `code`.
pub open spec fn lang_with_code_from(code: Seq<char>, i: nat) -> Option<Lang>
    decreases 9 - i,
{
    if i >= 9 {
        None
    } else if lang_code(all_langs()[i as int])@ == code {
        Some(all_langs()[i as int])
    } else {
        lang_with_code_from(code, i + 1)
    }
}

impl Lang {
    pub fn all() -> (r: &'static [Lang])
        ensures
            r@ == all_langs(),
    {
        &[
            Lang::En,
            Lang::Tr,
            Lang::De,
            Lang::Fr,
            Lang::Es,
            Lang::Pt,
            Lang::It,
            Lang::Nl,
            Lang::Pl,
        ]
    }

    pub fn code(&self) -> (r: &'static str)
        ensures
            r == lang_code(*self),
    {
        match self {
            Lang::En => "en",
            Lang::Tr => "tr",
            Lang::De => "de",
            Lang::Fr => "fr",
            Lang::Es => "es",
            Lang::Pt => "pt",
            Lang::It => "it",
            Lang::Nl => "nl",
            Lang::Pl => "pl",
        }
    }

    /// Native display name for the language picker.
    pub fn label(&self) -> (r: &'static str)
        ensures
            r == lang_label(*self),
    {
        match self {
            Lang::En => "English",
            Lang::Tr => "Türkçe",
            Lang::De => "Deutsch",
            Lang::Fr => "Français",
            Lang::Es => "Español",
            Lang::Pt => "Português",
            Lang::It => "Italiano",
            Lang::Nl => "Nederlands",
            Lang::Pl => "Polski",
        }
    }

    /// The first language of `Lang::all()` whose code equals `code`, if any.
    pub fn from_code(code: &str) -> (r: Option<Lang>)
        ensures
            r == lang_with_code_from(code@, 0),
    {
        let all = Lang::all();
        let mut i: usize = 0;
        while i < all.len()
            invariant
                all@ == all_langs(),
                i <= 9,
                lang_with_code_from(code@, 0) == lang_with_code_from(code@, i as nat),
            decreases 9 - i,
        {
            let l = all[i];
            if str_eq(l.code(), code) {
                return Some(l);
            }
            i = i + 1;
        }
        None
    }
}

/// Proof that looking a language up by its own code finds it again.
pub proof fn lemma_from_code_roundtrip(l: Lang)
    ensures
        lang_with_code_from(lang_code(l)@, 0) == Some(l),
{
    reveal_strlit("en");
    reveal_strlit("tr");
    reveal_strlit("de");
    reveal_strlit("fr");
    reveal_strlit("es");
    reveal_strlit("pt");
    reveal_strlit("it");
    reveal_strlit("nl");
    reveal_strlit("pl");
    assert("en"@ =~= seq!['e', 'n']);
    assert("tr"@ =~= seq!['t', 'r']);
    assert("de"@ =~= seq!['d', 'e']);
    assert("fr"@ =~= seq!['f', 'r']);
    assert("es"@ =~= seq!['e', 's']);
    assert("pt"@ =~= seq!['p', 't']);
    assert("it"@ =~= seq!['i', 't']);
    assert("nl"@ =~= seq!['n', 'l']);
    assert("pl"@ =~= seq!['p', 'l']);
    assert(all_langs() =~= seq![Lang::En, Lang::Tr, Lang::De, Lang::Fr, Lang::Es, Lang::Pt, Lang::It, Lang::Nl, Lang::Pl]);
    reveal_with_fuel(lang_with_code_from, 10);
}

/// Proof that a language found by code has exactly that code, so codes that
/// belong to no language give none.
pub proof fn lemma_from_code_sound(code: Seq<char>, i: nat)
    ensures
        lang_with_code_from(code, i) matches Some(l) ==> lang_code(l)@ == code,
    decreases 9 - i,
{
    if i < 9 {
        lemma_from_code_sound(code, i + 1);
    }
}

/// Every translatable key, in table order.
pub const ALL_KEYS: [&'static str; 54] = [
    "tab_control",
    "tab_macros",
    "tab_settings",
    "tab_about",
    "rec_idle",
    "btn_stop",
    "play_idle",
    "loop_title",
    "loop_infinite",
    "loop_times",
    "loop_apply",
    "file_row",
    "status_line",
    "events_line",
    "macro_line",
    "state_idle",
    "state_recording",
    "state_playing",
    "macros_heading",
    "macros_name",
    "macros_dur",
    "macros_events",
    "macros_created",
    "macros_save",
    "macros_load",
    "macros_fmt1",
    "macros_fmt2",
    "macros_empty",
    "save_quick",
    "load_quick",
    "set_heading",
    "set_record",
    "set_play",
    "set_stop",
    "set_change",
    "set_capture",
    "set_capture2",
    "set_cancel",
    "set_warn",
    "set_reset",
    "set_assigned",
    "set_defaults",
    "set_lang",
    "about_heading",
    "about_sub",
    "about_feat",
    "about_f1",
    "about_f2",
    "about_f3",
    "about_f4",
    "about_f5",
    "about_f6",
    "about_credit",
    "ready",
];

/// English strings, one per entry of `ALL_KEYS`.
pub const EN: [&'static str; 54] = [
    "Control",
    "Macros",
    "Settings",
    "About",
    "● Record",
    "■ Stop",
    "▶ Play",
    "Loop Settings:",
    "Infinite loop",
    "times",
    "Apply Loop Setting",
    "File:",
    "Status: {m}",
    "Recorded events: {n}",
    "Macro: {name} | Duration: {dur} | Created: {ts}",
    "○ Idle",
    "● RECORDING",
    "● PLAYING",
    "Macro Management",
    "Name: {v}",
    "Duration: {v}",
    "Event count: {v}",
    "Created (unix): {v}",
    "💾 Save Macro",
    "📂 Load Macro",
    "Format: .tts (binary, small/fast) or .json (readable/debug).",
    "A loaded macro is instantly ready to play.",
    "No recording yet — record in the Control tab or load a file.",
    "💾 Save",
    "📂 Load",
    "Keyboard Shortcuts",
    "Start/Stop recording:",
    "Start playback:",
    "Stop playback:",
    "Change",
    "Enter the new shortcut: a single key (e.g. F8) or a key with Ctrl/Alt/Shift...",
    "Press a key to assign it. Click Cancel to abort.",
    "Cancel",
    "⚠ Single keys (e.g. A, Space) also fire while typing. F8–F12 recommended.",
    "Reset to Defaults",
    "Assigned: {v}",
    "Reset to defaults.",
    "Language:",
    "About",
    "Minimalist macro recorder and player",
    "Features:",
    "• Kernel-level input capture",
    "• X11/Wayland independent",
    "• Millisecond precision",
    "• Game support",
    "• Loop mode",
    "• Customizable shortcuts",
    "Developed by TheBottle2.",
    "Ready",
];

/// Turkish strings, one per entry of `ALL_KEYS`.
pub const TR: [&'static str; 54] = [
    "Kontrol",
    "Makrolar",
    "Ayarlar",
    "Hakkında",
    "● Kaydet",
    "■ Durdur",
    "▶ Oynat",
    "Döngü Ayarları:",
    "Sonsuz döngü",
    "kez",
    "Döngü Ayarını Uygula",
    "Dosya:",
    "Durum: {m}",
    "Kaydedilen event: {n}",
    "Makro: {name} | Süre: {dur} | Oluşturulma: {ts}",
    "○ Boşta",
    "● KAYIT YAPILIYOR",
    "● OYNATILIYOR",
    "Makro Yönetimi",
    "Ad: {v}",
    "Süre: {v}",
    "Event sayısı: {v}",
    "Oluşturulma (unix): {v}",
    "💾 Makroyu Kaydet",
    "📂 Makro Yükle",
    "Format: .tts (binary, küçük/hızlı) veya .json (okunabilir/debug).",
    "Yüklenen makro anında oynatmaya hazır hale gelir.",
    "Henüz kayıt yok — önce Kontrol sekmesinde kayıt yapın veya dosya yükleyin.",
    "💾 Kaydet",
    "📂 Yükle",
    "Klavye Kısayolları",
    "Kayıt Başlat/Durdur:",
    "Oynat Başlat:",
    "Oynatmayı Durdur:",
    "Değiştir",
    "Yeni kısayolu girin: tek tuş (örn. F8) veya Ctrl/Alt/Shift ile birlikte bir tuş...",
    "Atamak için tuşa basın. Vazgeçmek için İptal'e tıklayın.",
    "İptal",
    "⚠ Tek tuş (örn. A, Space) yazı yazarken de tetiklenir. F8–F12 önerilir.",
    "Varsayılan Kısayollara Döndür",
    "Atandı: {v}",
    "Varsayılanlara dönüldü.",
    "Dil:",
    "Hakkında",
    "Minimalist makro kaydedici ve oynatıcı",
    "Özellikler:",
    "• Kernel seviyesinde girdi yakalama",
    "• X11/Wayland bağımsız",
    "• Milisaniye hassasiyeti",
    "• Oyun desteği",
    "• Döngü modu",
    "• Özelleştirilebilir kısayollar",
    "TheBottle2 tarafından geliştirilmiştir.",
    "Hazır",
];

/// German strings, one per entry of `ALL_KEYS`.
pub const DE: [&'static str; 54] = [
    "Steuerung",
    "Makros",
    "Einstellungen",
    "Über",
    "● Aufnehmen",
    "■ Stopp",
    "▶ Abspielen",
    "Schleifen-Einstellungen:",
    "Endlosschleife",
    "mal",
    "Schleifen-Einstellung übernehmen",
    "Datei:",
    "Status: {m}",
    "Aufgenommene Events: {n}",
    "Makro: {name} | Dauer: {dur} | Erstellt: {ts}",
    "○ Bereit",
    "● AUFNAHME LÄUFT",
    "● WIEDERGABE LÄUFT",
    "Makro-Verwaltung",
    "Name: {v}",
    "Dauer: {v}",
    "Event-Anzahl: {v}",
    "Erstellt (unix): {v}",
    "💾 Makro speichern",
    "📂 Makro laden",
    "Format: .tts (binär, klein/schnell) oder .json (lesbar/debug).",
    "Ein geladenes Makro ist sofort abspielbereit.",
    "Noch keine Aufnahme — nimm im Steuerungs-Tab auf oder lade eine Datei.",
    "💾 Speichern",
    "📂 Laden",
    "Tastaturkürzel",
    "Aufnahme starten/stoppen:",
    "Wiedergabe starten:",
    "Wiedergabe stoppen:",
    "Ändern",
    "Neues Kürzel eingeben: einzelne Taste (z. B. F8) oder Taste mit Strg/Alt/Umschalt...",
    "Taste zum Zuweisen drücken. Zum Abbrechen auf Abbrechen klicken.",
    "Abbrechen",
    "⚠ Einzeltasten (z. B. A, Leertaste) lösen auch beim Tippen aus. F8–F12 empfohlen.",
    "Auf Standard zurücksetzen",
    "Zugewiesen: {v}",
    "Auf Standard zurückgesetzt.",
    "Sprache:",
    "Über",
    "Minimalistischer Makro-Rekorder und -Player",
    "Funktionen:",
    "• Input-Erfassung auf Kernel-Ebene",
    "• X11/Wayland-unabhängig",
    "• Millisekunden-Präzision",
    "• Spiele-Unterstützung",
    "• Schleifen-Modus",
    "• Anpassbare Kürzel",
    "Entwickelt von TheBottle2.",
    "Bereit",
];

/// French strings, one per entry of `ALL_KEYS`.
pub const FR: [&'static str; 54] = [
    "Contrôle",
    "Macros",
    "Paramètres",
    "À propos",
    "● Enregistrer",
    "■ Arrêter",
    "▶ Lire",
    "Réglages de boucle :",
    "Boucle infinie",
    "fois",
    "Appliquer le réglage de boucle",
    "Fichier :",
    "État : {m}",
    "Événements enregistrés : {n}",
    "Macro : {name} | Durée : {dur} | Créée : {ts}",
    "○ Inactif",
    "● ENREGISTREMENT",
    "● LECTURE",
    "Gestion des macros",
    "Nom : {v}",
    "Durée : {v}",
    "Nombre d'événements : {v}",
    "Créée (unix) : {v}",
    "💾 Enregistrer la macro",
    "📂 Charger une macro",
    "Format : .tts (binaire, petit/rapide) ou .json (lisible/debug).",
    "Une macro chargée est immédiatement prête à être lue.",
    "Aucun enregistrement — enregistrez dans l'onglet Contrôle ou chargez un fichier.",
    "💾 Enregistrer",
    "📂 Charger",
    "Raccourcis clavier",
    "Démarrer/arrêter l'enregistrement :",
    "Démarrer la lecture :",
    "Arrêter la lecture :",
    "Modifier",
    "Saisissez le nouveau raccourci : une seule touche (ex. F8) ou une touche avec Ctrl/Alt/Maj...",
    "Appuyez sur une touche pour l'assigner. Cliquez sur Annuler pour abandonner.",
    "Annuler",
    "⚠ Les touches seules (ex. A, Espace) se déclenchent aussi en tapant. F8–F12 recommandés.",
    "Rétablir les défauts",
    "Assigné : {v}",
    "Valeurs par défaut rétablies.",
    "Langue :",
    "À propos",
    "Enregistreur et lecteur de macros minimaliste",
    "Fonctionnalités :",
    "• Capture d'entrée au niveau du noyau",
    "• Indépendant de X11/Wayland",
    "• Précision à la milliseconde",
    "• Prise en charge des jeux",
    "• Mode boucle",
    "• Raccourcis personnalisables",
    "Développé par TheBottle2.",
    "Prêt",
];

/// Spanish strings, one per entry of `ALL_KEYS`.
pub const ES: [&'static str; 54] = [
    "Control",
    "Macros",
    "Ajustes",
    "Acerca de",
    "● Grabar",
    "■ Detener",
    "▶ Reproducir",
    "Ajustes de bucle:",
    "Bucle infinito",
    "veces",
    "Aplicar ajuste de bucle",
    "Archivo:",
    "Estado: {m}",
    "Eventos grabados: {n}",
    "Macro: {name} | Duración: {dur} | Creada: {ts}",
    "○ Inactivo",
    "● GRABANDO",
    "● REPRODUCIENDO",
    "Gestión de macros",
    "Nombre: {v}",
    "Duración: {v}",
    "N.º de eventos: {v}",
    "Creada (unix): {v}",
    "💾 Guardar macro",
    "📂 Cargar macro",
    "Formato: .tts (binario, pequeño/rápido) o .json (legible/debug).",
    "Una macro cargada está lista para reproducirse.",
    "Sin grabación — graba en la pestaña Control o carga un archivo.",
    "💾 Guardar",
    "📂 Cargar",
    "Atajos de teclado",
    "Iniciar/detener grabación:",
    "Iniciar reproducción:",
    "Detener reproducción:",
    "Cambiar",
    "Introduce el nuevo atajo: una sola tecla (p. ej. F8) o una tecla con Ctrl/Alt/Mayús...",
    "Pulsa una tecla para asignarla. Clic en Cancelar para abortar.",
    "Cancelar",
    "⚠ Las teclas solas (p. ej. A, Espacio) también se activan al escribir. Se recomienda F8–F12.",
    "Restablecer valores",
    "Asignado: {v}",
    "Valores restablecidos.",
    "Idioma:",
    "Acerca de",
    "Grabador y reproductor de macros minimalista",
    "Características:",
    "• Captura de entrada a nivel de kernel",
    "• Independiente de X11/Wayland",
    "• Precisión de milisegundos",
    "• Soporte para juegos",
    "• Modo bucle",
    "• Atajos personalizables",
    "Desarrollado por TheBottle2.",
    "Listo",
];

/// Portuguese strings, one per entry of `ALL_KEYS`.
pub const PT: [&'static str; 54] = [
    "Controlo",
    "Macros",
    "Definições",
    "Sobre",
    "● Gravar",
    "■ Parar",
    "▶ Reproduzir",
    "Definições de repetição:",
    "Repetição infinita",
    "vezes",
    "Aplicar definição de repetição",
    "Ficheiro:",
    "Estado: {m}",
    "Eventos gravados: {n}",
    "Macro: {name} | Duração: {dur} | Criada: {ts}",
    "○ Inativo",
    "● A GRAVAR",
    "● A REPRODUZIR",
    "Gestão de macros",
    "Nome: {v}",
    "Duração: {v}",
    "N.º de eventos: {v}",
    "Criada (unix): {v}",
    "💾 Guardar macro",
    "📂 Carregar macro",
    "Formato: .tts (binário, pequeno/rápido) ou .json (legível/debug).",
    "Uma macro carregada está pronta a reproduzir.",
    "Sem gravação — grave no separador Controlo ou carregue um ficheiro.",
    "💾 Guardar",
    "📂 Carregar",
    "Atalhos de teclado",
    "Iniciar/parar gravação:",
    "Iniciar reprodução:",
    "Parar reprodução:",
    "Alterar",
    "Introduza o novo atalho: uma só tecla (ex. F8) ou tecla com Ctrl/Alt/Shift...",
    "Prima uma tecla para atribuir. Clique em Cancelar para desistir.",
    "Cancelar",
    "⚠ Teclas isoladas (ex. A, Espaço) disparam também ao escrever. Recomenda-se F8–F12.",
    "Repor predefinições",
    "Atribuído: {v}",
    "Predefinições repostas.",
    "Idioma:",
    "Sobre",
    "Gravador e reprodutor de macros minimalista",
    "Funcionalidades:",
    "• Captura de entrada ao nível do kernel",
    "• Independente de X11/Wayland",
    "• Precisão de milissegundos",
    "• Suporte a jogos",
    "• Modo de repetição",
    "• Atalhos personalizáveis",
    "Desenvolvido por TheBottle2.",
    "Pronto",
];

/// Italian strings, one per entry of `ALL_KEYS`.
pub const IT: [&'static str; 54] = [
    "Controllo",
    "Macro",
    "Impostazioni",
    "Info",
    "● Registra",
    "■ Ferma",
    "▶ Riproduci",
    "Impostazioni ciclo:",
    "Ciclo infinito",
    "volte",
    "Applica impostazione ciclo",
    "File:",
    "Stato: {m}",
    "Eventi registrati: {n}",
    "Macro: {name} | Durata: {dur} | Creata: {ts}",
    "○ Inattivo",
    "● REGISTRAZIONE",
    "● RIPRODUZIONE",
    "Gestione macro",
    "Nome: {v}",
    "Durata: {v}",
    "Numero eventi: {v}",
    "Creata (unix): {v}",
    "💾 Salva macro",
    "📂 Carica macro",
    "Formato: .tts (binario, piccolo/veloce) o .json (leggibile/debug).",
    "Una macro caricata è subito pronta.",
    "Nessuna registrazione — registra nella scheda Controllo o carica un file.",
    "💾 Salva",
    "📂 Carica",
    "Scorciatoie da tastiera",
    "Avvia/ferma registrazione:",
    "Avvia riproduzione:",
    "Ferma riproduzione:",
    "Cambia",
    "Inserisci la nuova scorciatoia: un singolo tasto (es. F8) o un tasto con Ctrl/Alt/Maiusc...",
    "Premi un tasto per assegnarlo. Fai clic su Annulla per uscire.",
    "Annulla",
    "⚠ I tasti singoli (es. A, Spazio) si attivano anche digitando. Consigliati F8–F12.",
    "Ripristina predefinite",
    "Assegnato: {v}",
    "Predefinite ripristinate.",
    "Lingua:",
    "Info",
    "Registratore e riproduttore di macro minimalista",
    "Funzionalità:",
    "• Cattura input a livello kernel",
    "• Indipendente da X11/Wayland",
    "• Precisione al millisecondo",
    "• Supporto giochi",
    "• Modalità ciclo",
    "• Scorciatoie personalizzabili",
    "Sviluppato da TheBottle2.",
    "Pronto",
];

/// Dutch strings, one per entry of `ALL_KEYS`.
pub const NL: [&'static str; 54] = [
    "Bediening",
    "Macro's",
    "Instellingen",
    "Over",
    "● Opnemen",
    "■ Stoppen",
    "▶ Afspelen",
    "Lus-instellingen:",
    "Oneindige lus",
    "keer",
    "Lus-instelling toepassen",
    "Bestand:",
    "Status: {m}",
    "Opgenomen events: {n}",
    "Macro: {name} | Duur: {dur} | Aangemaakt: {ts}",
    "○ Inactief",
    "● OPNAME BEZIG",
    "● AFSPELEN BEZIG",
    "Macrobeheer",
    "Naam: {v}",
    "Duur: {v}",
    "Aantal events: {v}",
    "Aangemaakt (unix): {v}",
    "💾 Macro opslaan",
    "📂 Macro laden",
    "Formaat: .tts (binair, klein/snel) of .json (leesbaar/debug).",
    "Een geladen macro is direct afspeelbaar.",
    "Nog geen opname — neem op via Bediening of laad een bestand.",
    "💾 Opslaan",
    "📂 Laden",
    "Sneltoetsen",
    "Opname starten/stoppen:",
    "Afspelen starten:",
    "Afspelen stoppen:",
    "Wijzigen",
    "Voer de nieuwe sneltoets in: één toets (bijv. F8) of een toets met Ctrl/Alt/Shift...",
    "Druk op een toets om toe te wijzen. Klik op Annuleren om af te breken.",
    "Annuleren",
    "⚠ Losse toetsen (bijv. A, Spatie) werken ook tijdens typen. F8–F12 aanbevolen.",
    "Standaard herstellen",
    "Toegewezen: {v}",
    "Standaard hersteld.",
    "Taal:",
    "Over",
    "Minimalistische macro-opnemer en -speler",
    "Functies:",
    "• Input-opname op kernelniveau",
    "• X11/Wayland-onafhankelijk",
    "• Millisecondeprecisie",
    "• Game-ondersteuning",
    "• Lusmodus",
    "• Aanpasbare sneltoetsen",
    "Ontwikkeld door TheBottle2.",
    "Gereed",
];

/// Polish strings, one per entry of `ALL_KEYS`.
pub const PL: [&'static str; 54] = [
    "Sterowanie",
    "Makra",
    "Ustawienia",
    "O programie",
    "● Nagrywaj",
    "■ Zatrzymaj",
    "▶ Odtwórz",
    "Ustawienia pętli:",
    "Nieskończona pętla",
    "razy",
    "Zastosuj ustawienie pętli",
    "Plik:",
    "Stan: {m}",
    "Nagrane zdarzenia: {n}",
    "Makro: {name} | Czas: {dur} | Utworzono: {ts}",
    "○ Bezczynny",
    "● NAGRYWANIE",
    "● ODTWARZANIE",
    "Zarządzanie makrami",
    "Nazwa: {v}",
    "Czas: {v}",
    "Liczba zdarzeń: {v}",
    "Utworzono (unix): {v}",
    "💾 Zapisz makro",
    "📂 Wczytaj makro",
    "Format: .tts (binarny, mały/szybki) lub .json (czytelny/debug).",
    "Wczytane makro jest od razu gotowe do odtworzenia.",
    "Brak nagrania — nagraj w zakładce Sterowanie lub wczytaj plik.",
    "💾 Zapisz",
    "📂 Wczytaj",
    "Skróty klawiszowe",
    "Start/stop nagrywania:",
    "Start odtwarzania:",
    "Stop odtwarzania:",
    "Zmień",
    "Wprowadź nowy skrót: pojedynczy klawisz (np. F8) lub klawisz z Ctrl/Alt/Shift...",
    "Naciśnij klawisz, aby przypisać. Kliknij Anuluj, aby przerwać.",
    "Anuluj",
    "⚠ Pojedyncze klawisze (np. A, Spacja) zadziałają też podczas pisania. Zalecane F8–F12.",
    "Przywróć domyślne",
    "Przypisano: {v}",
    "Przywrócono domyślne.",
    "Język:",
    "O programie",
    "Minimalistyczny rejestrator i odtwarzacz makr",
    "Funkcje:",
    "• Przechwytywanie wejścia na poziomie jądra",
    "• Niezależność od X11/Wayland",
    "• Precyzja milisekundowa",
    "• Wsparcie gier",
    "• Tryb pętli",
    "• Konfigurowalne skróty",
    "Autor: TheBottle2.",
    "Gotowy",
];

/// The strings of language `l`, one per entry of `ALL_KEYS`.
pub open spec fn lang_table(l: Lang) -> [&'static str; 54] {
    match l {
        Lang::En => EN,
        Lang::Tr => TR,
        Lang::De => DE,
        Lang::Fr => FR,
        Lang::Es => ES,
        Lang::Pt => PT,
        Lang::It => IT,
        Lang::Nl => NL,
        Lang::Pl => PL,
    }
}

/// The position of the first entry of `ALL_KEYS`, at `i` or later, equal to `key`;
/// 54 when there is none.
pub open spec fn key_position_from(key: Seq<char>, i: nat) -> nat
    decreases 54 - i,
{
    if i >= 54 {
        54
    } else if ALL_KEYS@[i as int]@ == key {
        i
    } else {
        key_position_from(key, i + 1)
    }
}

/// The UI string for `key` in language `l`: the table entry of the first
/// matching key, or the key itself when the key is not in the table.
pub open spec fn translate(l: Lang, key: Seq<char>) -> Seq<char> {
    let i = key_position_from(key, 0);
    if i < 54 {
        lang_table(l)@[i as int]@
    } else {
        key
    }
}

fn table_entry(lang: Lang, i: usize) -> (r: &'static str)
    requires
        i < 54,
    ensures
        r == lang_table(lang)@[i as int],
{
    match lang {
        Lang::En => EN[i],
        Lang::Tr => TR[i],
        Lang::De => DE[i],
        Lang::Fr => FR[i],
        Lang::Es => ES[i],
        Lang::Pt => PT[i],
        Lang::It => IT[i],
        Lang::Nl => NL[i],
        Lang::Pl => PL[i],
    }
}

/// Look up a UI string. Falls back to the key itself for keys outside the
/// table (never panics on missing translations).
pub fn t(lang: Lang, key: &'static str) -> (r: &'static str)
    ensures
        r@ == translate(lang, key@),
{
    let mut i: usize = 0;
    while i < 54
        invariant
            i <= 54,
            key_position_from(key@, 0) == key_position_from(key@, i as nat),
        decreases 54 - i,
    {
        if str_eq(ALL_KEYS[i], key) {
            return table_entry(lang, i);
        }
        i = i + 1;
    }
    key
}

/// Proof that a key listed nowhere in `ALL_KEYS` is shown as itself, in every language.
pub proof fn lemma_unknown_key_falls_back(l: Lang, key: Seq<char>)
    requires
        forall|i: int| 0 <= i < 54 ==> ALL_KEYS@[i]@ != key,
    ensures
        translate(l, key) == key,
{
    lemma_no_key_from(key, 0);
}

proof fn lemma_no_key_from(key: Seq<char>, i: nat)
    requires
        forall|j: int| 0 <= j < 54 ==> ALL_KEYS@[j]@ != key,
    ensures
        key_position_from(key, i) == 54,
    decreases 54 - i,
{
    if i < 54 {
        lemma_no_key_from(key, i + 1);
    }
}

} // verus!
